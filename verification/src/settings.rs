//! The values that configuration resolution works on: what the configuration
//! file holds, what the process environment holds, and the resolved
//! configuration that the server runs with.

use vstd::prelude::*;

verus! {

/// Environment variable that holds the PEM of the RSA public key used to check JWTs.
pub const JWT_RSA_PEM_VAR: &'static str = "VSS_JWT_RSA_PEM";

/// Environment variable that holds the PostgreSQL user name.
pub const PSQL_USER_VAR: &'static str = "VSS_PSQL_USERNAME";

/// Environment variable that holds the PostgreSQL password.
pub const PSQL_PASS_VAR: &'static str = "VSS_PSQL_PASSWORD";

/// Environment variable that holds the socket address of the PostgreSQL service.
pub const PSQL_ADDR_VAR: &'static str = "VSS_PSQL_ADDRESS";

/// Environment variable that holds the name of the default PostgreSQL database.
pub const PSQL_DB_VAR: &'static str = "VSS_PSQL_DEFAULT_DB";

/// Environment variable that holds the name of the database that holds the store.
pub const PSQL_VSS_DB_VAR: &'static str = "VSS_PSQL_VSS_DB";

/// Environment variable whose presence, whatever its value, turns TLS on.
pub const PSQL_TLS_VAR: &'static str = "VSS_PSQL_TLS";

/// Environment variable that holds the PEM of an extra root certificate for TLS
/// (its presence turns TLS on too).
pub const PSQL_CERT_PEM_VAR: &'static str = "VSS_PSQL_CRT_PEM";

/// A socket address (IP address and port), held as the text that names it
/// in its canonical form, such as `127.0.0.1:5432` or `[::1]:5432`.
pub struct SocketAddress {
    pub text: String,
}

impl View for SocketAddress {
    type V = Seq<char>;

    open spec fn view(&self) -> Seq<char> {
        self.text@
    }
}

/// The `[server_config]` table of the configuration file.
pub struct ServerConfig {
    pub bind_address: SocketAddress,
}

/// The `[jwt_auth_config]` table of the configuration file.
pub struct JwtAuthConfig {
    pub rsa_pem: Option<String>,
}

/// The `[postgresql_config.tls]` table of the configuration file: its presence
/// turns TLS on.
pub struct TlsConfig {
    pub crt_pem: Option<String>,
}

/// The `[postgresql_config]` table of the configuration file.
pub struct PostgreSQLConfig {
    pub username: Option<String>,
    pub password: Option<String>,
    pub address: Option<SocketAddress>,
    pub default_database: Option<String>,
    pub vss_database: Option<String>,
    pub tls: Option<TlsConfig>,
}

/// The whole configuration file.
pub struct Config {
    pub server_config: ServerConfig,
    pub jwt_auth_config: Option<JwtAuthConfig>,
    pub postgresql_config: Option<PostgreSQLConfig>,
}

/// Why the configuration file gave no [`Config`].
pub enum ConfigFileError {
    /// The file could not be read; the text describes the failure.
    Unreadable(String),
    /// The file's text is no valid configuration; the text describes the failure.
    Malformed(String),
}

/// What a lookup of one environment variable gave.
pub enum EnvValue {
    /// The variable is not set.
    NotPresent,
    /// The variable is set to this text.
    Present(String),
    /// The variable is set but could not be read (it is not valid unicode);
    /// the text describes the failure.
    Unreadable(String),
}

/// What a lookup of the PostgreSQL address variable gave, once its text has
/// been read as a socket address.
pub enum AddressEnvValue {
    /// The variable is not set.
    NotPresent,
    /// The variable is set to the text of this socket address.
    Present(SocketAddress),
    /// The variable is set but could not be read; the text describes the failure.
    Unreadable(String),
    /// The variable is set to a text that is no socket address; the text
    /// describes the failure.
    Malformed(String),
}

/// The environment variables that configuration resolution looks at, one
/// lookup each.
pub struct Environment {
    pub jwt_rsa_pem: EnvValue,
    pub psql_username: EnvValue,
    pub psql_password: EnvValue,
    pub psql_address: AddressEnvValue,
    pub psql_default_db: EnvValue,
    pub psql_vss_db: EnvValue,
    pub psql_tls: EnvValue,
    pub psql_crt_pem: EnvValue,
}

/// The settings that the environment supplies, once every lookup succeeded.
pub struct EnvSettings {
    pub rsa_pem: Option<String>,
    pub username: Option<String>,
    pub password: Option<String>,
    pub address: Option<SocketAddress>,
    pub default_db: Option<String>,
    pub vss_db: Option<String>,
    pub tls: Option<String>,
    pub crt_pem: Option<String>,
}

/// The resolved configuration that the server runs with.
pub struct Configuration {
    pub bind_address: SocketAddress,
    pub rsa_pem: Option<String>,
    /// `postgresql://<username>:<password>@<address>`
    pub postgresql_prefix: String,
    pub default_db: String,
    pub vss_db: String,
    /// `None`: no TLS; `Some(None)`: TLS with the system's roots;
    /// `Some(Some(pem))`: TLS that also trusts the certificate `pem`.
    pub tls_config: Option<Option<String>>,
}

/// The text of an optional string.
pub open spec fn opt_text(o: Option<String>) -> Option<Seq<char>> {
    match o {
        Some(s) => Some(s@),
        None => None,
    }
}

/// The text of an optional socket address.
pub open spec fn opt_address(o: Option<SocketAddress>) -> Option<Seq<char>> {
    match o {
        Some(a) => Some(a@),
        None => None,
    }
}

/// The model of [`EnvSettings`]: the text of each setting the environment supplies.
pub struct EnvSettingsView {
    pub rsa_pem: Option<Seq<char>>,
    pub username: Option<Seq<char>>,
    pub password: Option<Seq<char>>,
    pub address: Option<Seq<char>>,
    pub default_db: Option<Seq<char>>,
    pub vss_db: Option<Seq<char>>,
    pub tls: Option<Seq<char>>,
    pub crt_pem: Option<Seq<char>>,
}

impl View for EnvSettings {
    type V = EnvSettingsView;

    open spec fn view(&self) -> EnvSettingsView {
        EnvSettingsView {
            rsa_pem: opt_text(self.rsa_pem),
            username: opt_text(self.username),
            password: opt_text(self.password),
            address: opt_address(self.address),
            default_db: opt_text(self.default_db),
            vss_db: opt_text(self.vss_db),
            tls: opt_text(self.tls),
            crt_pem: opt_text(self.crt_pem),
        }
    }
}

/// The model of [`Configuration`]: each field by its text.
pub struct ConfigurationView {
    pub bind_address: Seq<char>,
    pub rsa_pem: Option<Seq<char>>,
    pub postgresql_prefix: Seq<char>,
    pub default_db: Seq<char>,
    pub vss_db: Seq<char>,
    pub tls_config: Option<Option<Seq<char>>>,
}

/// The text of an optional TLS setting.
pub open spec fn opt_tls_text(o: Option<Option<String>>) -> Option<Option<Seq<char>>> {
    match o {
        Some(inner) => Some(opt_text(inner)),
        None => None,
    }
}

impl View for Configuration {
    type V = ConfigurationView;

    open spec fn view(&self) -> ConfigurationView {
        ConfigurationView {
            bind_address: self.bind_address@,
            rsa_pem: opt_text(self.rsa_pem),
            postgresql_prefix: self.postgresql_prefix@,
            default_db: self.default_db@,
            vss_db: self.vss_db@,
            tls_config: opt_tls_text(self.tls_config),
        }
    }
}

/// The RSA key that the file gives, if any.
pub open spec fn file_rsa_pem(config: Config) -> Option<Seq<char>> {
    match config.jwt_auth_config {
        Some(jwt) => opt_text(jwt.rsa_pem),
        None => None,
    }
}

/// The user name that the file gives, if any.
pub open spec fn file_username(config: Config) -> Option<Seq<char>> {
    match config.postgresql_config {
        Some(c) => opt_text(c.username),
        None => None,
    }
}

/// The password that the file gives, if any.
pub open spec fn file_password(config: Config) -> Option<Seq<char>> {
    match config.postgresql_config {
        Some(c) => opt_text(c.password),
        None => None,
    }
}

/// The PostgreSQL address that the file gives, if any.
pub open spec fn file_address(config: Config) -> Option<Seq<char>> {
    match config.postgresql_config {
        Some(c) => opt_address(c.address),
        None => None,
    }
}

/// The default database name that the file gives, if any.
pub open spec fn file_default_db(config: Config) -> Option<Seq<char>> {
    match config.postgresql_config {
        Some(c) => opt_text(c.default_database),
        None => None,
    }
}

/// The store's database name that the file gives, if any.
pub open spec fn file_vss_db(config: Config) -> Option<Seq<char>> {
    match config.postgresql_config {
        Some(c) => opt_text(c.vss_database),
        None => None,
    }
}

/// The TLS setting of the file: `None` without a TLS table, else
/// `Some` of the certificate it names, if any.
pub open spec fn file_tls(config: Config) -> Option<Option<Seq<char>>> {
    match config.postgresql_config {
        Some(c) => match c.tls {
            Some(t) => Some(opt_text(t.crt_pem)),
            None => None,
        },
        None => None,
    }
}

} // verus!
