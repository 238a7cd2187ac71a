//! Resolution of the configuration: each setting comes from the environment
//! where the environment gives it, else from the configuration file; a
//! required setting that neither gives is an error, and so is a lookup of
//! the environment that failed.

use vstd::prelude::*;

use crate::settings::{
    file_address, file_default_db, file_password, file_rsa_pem, file_tls, file_username,
    file_vss_db, opt_address, opt_text, opt_tls_text, AddressEnvValue, Config, ConfigFileError, Configuration,
    ConfigurationView, EnvSettings, EnvSettingsView, EnvValue, Environment, SocketAddress,
    JWT_RSA_PEM_VAR, PSQL_ADDR_VAR, PSQL_CERT_PEM_VAR, PSQL_DB_VAR, PSQL_PASS_VAR, PSQL_TLS_VAR,
    PSQL_USER_VAR, PSQL_VSS_DB_VAR,
};

verus! {

/// How the PostgreSQL user name is named in the error for a missing setting.
pub const USERNAME_ITEM: &'static str = "PostgreSQL database username";

/// How the PostgreSQL password is named in the error for a missing setting.
pub const PASSWORD_ITEM: &'static str = "PostgreSQL database password";

/// How the PostgreSQL address is named in the error for a missing setting.
pub const ADDRESS_ITEM: &'static str = "PostgreSQL service address";

/// How the default database is named in the error for a missing setting.
pub const DEFAULT_DB_ITEM: &'static str = "PostgreSQL default database name";

/// How the store's database is named in the error for a missing setting.
pub const VSS_DB_ITEM: &'static str = "PostgreSQL vss database name";

// ---------------------------------------------------------------------------
// The model
// ---------------------------------------------------------------------------

/// The error for an environment variable that is set but could not be read.
pub open spec fn env_failure_message(var: Seq<char>, detail: Seq<char>) -> Seq<char> {
    "Failed to load the "@ + var + " environment variable: "@ + detail
}

/// The error for a PostgreSQL address variable that names no socket address.
pub open spec fn address_failure_message(detail: Seq<char>) -> Seq<char> {
    "Unable to parse the postgresql address environment variable: "@ + detail
}

/// The error for a required setting that neither the file nor the environment gives.
pub open spec fn missing_setting_message(item: Seq<char>, var: Seq<char>) -> Seq<char> {
    item + " must be provided in the configuration file or the environment variable "@ + var
        + " must be set."@
}

/// The connection prefix `postgresql://<username>:<password>@<address>`.
pub open spec fn prefix_text(username: Seq<char>, password: Seq<char>, address: Seq<char>) -> Seq<
    char,
> {
    "postgresql://"@ + username + ":"@ + password + "@"@ + address
}

/// What one lookup of the variable `var` gives: the text it is set to, if
/// any, or the error for a variable that could not be read.
pub open spec fn env_reading(v: EnvValue, var: Seq<char>) -> Result<Option<Seq<char>>, Seq<char>> {
    match v {
        EnvValue::NotPresent => Ok(None),
        EnvValue::Present(s) => Ok(Some(s@)),
        EnvValue::Unreadable(detail) => Err(env_failure_message(var, detail@)),
    }
}

/// What the lookup of the PostgreSQL address variable gives.
pub open spec fn address_reading(v: AddressEnvValue) -> Result<Option<Seq<char>>, Seq<char>> {
    match v {
        AddressEnvValue::NotPresent => Ok(None),
        AddressEnvValue::Present(a) => Ok(Some(a@)),
        AddressEnvValue::Unreadable(detail) => Err(env_failure_message(PSQL_ADDR_VAR@, detail@)),
        AddressEnvValue::Malformed(detail) => Err(address_failure_message(detail@)),
    }
}

/// The settings that the environment gives, or the error of the first lookup
/// that failed, the variables taken in this order: RSA key, user name,
/// password, address, default database, store database, TLS, certificate.
pub open spec fn environment_reading(env: Environment) -> Result<EnvSettingsView, Seq<char>> {
    let rsa_pem = env_reading(env.jwt_rsa_pem, JWT_RSA_PEM_VAR@);
    let username = env_reading(env.psql_username, PSQL_USER_VAR@);
    let password = env_reading(env.psql_password, PSQL_PASS_VAR@);
    let address = address_reading(env.psql_address);
    let default_db = env_reading(env.psql_default_db, PSQL_DB_VAR@);
    let vss_db = env_reading(env.psql_vss_db, PSQL_VSS_DB_VAR@);
    let tls = env_reading(env.psql_tls, PSQL_TLS_VAR@);
    let crt_pem = env_reading(env.psql_crt_pem, PSQL_CERT_PEM_VAR@);
    if rsa_pem is Err {
        Err(rsa_pem->Err_0)
    } else if username is Err {
        Err(username->Err_0)
    } else if password is Err {
        Err(password->Err_0)
    } else if address is Err {
        Err(address->Err_0)
    } else if default_db is Err {
        Err(default_db->Err_0)
    } else if vss_db is Err {
        Err(vss_db->Err_0)
    } else if tls is Err {
        Err(tls->Err_0)
    } else if crt_pem is Err {
        Err(crt_pem->Err_0)
    } else {
        Ok(
            EnvSettingsView {
                rsa_pem: rsa_pem->Ok_0,
                username: username->Ok_0,
                password: password->Ok_0,
                address: address->Ok_0,
                default_db: default_db->Ok_0,
                vss_db: vss_db->Ok_0,
                tls: tls->Ok_0,
                crt_pem: crt_pem->Ok_0,
            },
        )
    }
}

/// The value of an optional setting: the environment's, else the file's.
pub open spec fn either<A>(env: Option<A>, file: Option<A>) -> Option<A> {
    match env {
        Some(v) => Some(v),
        None => file,
    }
}

/// The value of a required setting: the environment's, else the file's,
/// else the error that names the setting and its variable.
pub open spec fn required_setting(
    env: Option<Seq<char>>,
    file: Option<Seq<char>>,
    item: Seq<char>,
    var: Seq<char>,
) -> Result<Seq<char>, Seq<char>> {
    match either(env, file) {
        Some(v) => Ok(v),
        None => Err(missing_setting_message(item, var)),
    }
}

/// The TLS setting: a certificate in the environment turns TLS on with that
/// certificate; else the TLS variable, whatever its value, turns TLS on
/// without one; else the file decides.
pub open spec fn tls_choice(
    crt_pem: Option<Seq<char>>,
    tls: Option<Seq<char>>,
    file: Option<Option<Seq<char>>>,
) -> Option<Option<Seq<char>>> {
    match crt_pem {
        Some(pem) => Some(Some(pem)),
        None => match tls {
            Some(_) => Some(None),
            None => file,
        },
    }
}

/// The configuration that the file and the settings of the environment give
/// together, or the error for the first required setting that neither gives,
/// taken in this order: user name, password, address, default database,
/// store database.
pub open spec fn merged(config: Config, s: EnvSettingsView) -> Result<ConfigurationView, Seq<char>> {
    let username = required_setting(s.username, file_username(config), USERNAME_ITEM@, PSQL_USER_VAR@);
    let password = required_setting(s.password, file_password(config), PASSWORD_ITEM@, PSQL_PASS_VAR@);
    let address = required_setting(s.address, file_address(config), ADDRESS_ITEM@, PSQL_ADDR_VAR@);
    let default_db = required_setting(
        s.default_db,
        file_default_db(config),
        DEFAULT_DB_ITEM@,
        PSQL_DB_VAR@,
    );
    let vss_db = required_setting(s.vss_db, file_vss_db(config), VSS_DB_ITEM@, PSQL_VSS_DB_VAR@);
    if username is Err {
        Err(username->Err_0)
    } else if password is Err {
        Err(password->Err_0)
    } else if address is Err {
        Err(address->Err_0)
    } else if default_db is Err {
        Err(default_db->Err_0)
    } else if vss_db is Err {
        Err(vss_db->Err_0)
    } else {
        Ok(
            ConfigurationView {
                bind_address: config.server_config.bind_address@,
                rsa_pem: either(s.rsa_pem, file_rsa_pem(config)),
                postgresql_prefix: prefix_text(username->Ok_0, password->Ok_0, address->Ok_0),
                default_db: default_db->Ok_0,
                vss_db: vss_db->Ok_0,
                tls_config: tls_choice(s.crt_pem, s.tls, file_tls(config)),
            },
        )
    }
}

/// The configuration that the file and the environment give, or the error:
/// a failed lookup of the environment first, then a missing setting.
pub open spec fn resolved(config: Config, env: Environment) -> Result<ConfigurationView, Seq<char>> {
    match environment_reading(env) {
        Err(e) => Err(e),
        Ok(s) => merged(config, s),
    }
}

/// The error for a configuration file that could not be read.
pub open spec fn file_read_failure_message(detail: Seq<char>) -> Seq<char> {
    "Failed to read configuration file: "@ + detail
}

/// The error for a configuration file whose text is no valid configuration.
pub open spec fn file_parse_failure_message(detail: Seq<char>) -> Seq<char> {
    "Failed to parse configuration file: "@ + detail
}

/// The outcome of loading: the file's failure first, then [`resolved`].
pub open spec fn loaded(file: Result<Config, ConfigFileError>, env: Environment) -> Result<
    ConfigurationView,
    Seq<char>,
> {
    match file {
        Err(ConfigFileError::Unreadable(detail)) => Err(file_read_failure_message(detail@)),
        Err(ConfigFileError::Malformed(detail)) => Err(file_parse_failure_message(detail@)),
        Ok(config) => resolved(config, env),
    }
}

// ---------------------------------------------------------------------------
// The code
// ---------------------------------------------------------------------------

/// The error for the variable `var` that is set but could not be read.
pub fn env_failure(var: &str, detail: &str) -> (r: String)
    ensures
        r@ == env_failure_message(var@, detail@),
{
    let mut r = String::from_str("Failed to load the ");
    r.append(var);
    r.append(" environment variable: ");
    r.append(detail);
    r
}

/// The error for a configuration file that could not be read.
pub fn file_read_failure(detail: &str) -> (r: String)
    ensures
        r@ == file_read_failure_message(detail@),
{
    let mut r = String::from_str("Failed to read configuration file: ");
    r.append(detail);
    r
}

/// The error for a configuration file whose text is no valid configuration.
pub fn file_parse_failure(detail: &str) -> (r: String)
    ensures
        r@ == file_parse_failure_message(detail@),
{
    let mut r = String::from_str("Failed to parse configuration file: ");
    r.append(detail);
    r
}

/// The error for a PostgreSQL address variable that names no socket address.
pub fn address_failure(detail: &str) -> (r: String)
    ensures
        r@ == address_failure_message(detail@),
{
    let mut r = String::from_str("Unable to parse the postgresql address environment variable: ");
    r.append(detail);
    r
}

/// The error for the required setting `item`, with its variable `var`, that
/// neither the file nor the environment gives.
pub fn missing_setting(item: &str, var: &str) -> (r: String)
    ensures
        r@ == missing_setting_message(item@, var@),
{
    let mut r = String::from_str(item);
    r.append(" must be provided in the configuration file or the environment variable ");
    r.append(var);
    r.append(" must be set.");
    r
}

/// The connection prefix `postgresql://<username>:<password>@<address>`.
pub fn postgresql_prefix(username: &str, password: &str, address: &SocketAddress) -> (r: String)
    ensures
        r@ == prefix_text(username@, password@, address@),
{
    let mut r = String::from_str("postgresql://");
    r.append(username);
    r.append(":");
    r.append(password);
    r.append("@");
    r.append(address.text.as_str());
    r
}

/// Reads one lookup of the variable `var`: `Ok(None)` where it is not set,
/// `Ok(Some(text))` where it is set to `text`, and the error that names the
/// variable where it could not be read.
pub fn read_env(value: EnvValue, var: &str) -> (r: Result<Option<String>, String>)
    ensures
        match r {
            Ok(o) => env_reading(value, var@) == Ok::<Option<Seq<char>>, Seq<char>>(opt_text(o)),
            Err(e) => env_reading(value, var@) == Err::<Option<Seq<char>>, Seq<char>>(e@),
        },
{
    match value {
        EnvValue::NotPresent => Ok(None),
        EnvValue::Present(s) => Ok(Some(s)),
        EnvValue::Unreadable(detail) => Err(env_failure(var, detail.as_str())),
    }
}

/// Reads the lookup of the PostgreSQL address variable: `Ok(None)` where it
/// is not set, `Ok(Some(address))` where it names a socket address, and an
/// error where it could not be read or names none.
pub fn read_address_env(value: AddressEnvValue) -> (r: Result<Option<SocketAddress>, String>)
    ensures
        match r {
            Ok(o) => address_reading(value) == Ok::<Option<Seq<char>>, Seq<char>>(opt_address(o)),
            Err(e) => address_reading(value) == Err::<Option<Seq<char>>, Seq<char>>(e@),
        },
{
    match value {
        AddressEnvValue::NotPresent => Ok(None),
        AddressEnvValue::Present(a) => Ok(Some(a)),
        AddressEnvValue::Unreadable(detail) => Err(env_failure(PSQL_ADDR_VAR, detail.as_str())),
        AddressEnvValue::Malformed(detail) => Err(address_failure(detail.as_str())),
    }
}

/// A required setting: the environment's value where it gives one, else the
/// file's, else the error that names the setting `item` and its variable `var`.
pub fn read_config<T>(env: Option<T>, config: Option<T>, item: &str, var: &str) -> (r: Result<
    T,
    String,
>)
    ensures
        match r {
            Ok(v) => either(env, config) == Some(v),
            Err(e) => either(env, config) is None && e@ == missing_setting_message(item@, var@),
        },
{
    match env {
        Some(v) => Ok(v),
        None => match config {
            Some(v) => Ok(v),
            None => Err(missing_setting(item, var)),
        },
    }
}

/// The TLS setting: the certificate of the environment where it gives one;
/// else TLS without a certificate where the TLS variable is set; else the
/// file's setting.
pub fn resolve_tls(
    crt_pem_env: Option<String>,
    tls_env: Option<String>,
    file_tls: Option<Option<String>>,
) -> (r: Option<Option<String>>)
    ensures
        opt_tls_text(r) == tls_choice(opt_text(crt_pem_env), opt_text(tls_env), opt_tls_text(file_tls)),
{
    match crt_pem_env {
        Some(pem) => Some(Some(pem)),
        None => match tls_env {
            Some(_) => Some(None),
            None => file_tls,
        },
    }
}

/// Reads every lookup of the environment, in the order of
/// [`environment_reading`]: the settings it gives, or the error of the first
/// lookup that failed.
pub fn read_environment(env: Environment) -> (r: Result<EnvSettings, String>)
    ensures
        match r {
            Ok(s) => environment_reading(env) == Ok::<EnvSettingsView, Seq<char>>(s@),
            Err(e) => environment_reading(env) == Err::<EnvSettingsView, Seq<char>>(e@),
        },
{
    let Environment {
        jwt_rsa_pem,
        psql_username,
        psql_password,
        psql_address,
        psql_default_db,
        psql_vss_db,
        psql_tls,
        psql_crt_pem,
    } = env;
    let rsa_pem = match read_env(jwt_rsa_pem, JWT_RSA_PEM_VAR) {
        Ok(v) => v,
        Err(e) => return Err(e),
    };
    let username = match read_env(psql_username, PSQL_USER_VAR) {
        Ok(v) => v,
        Err(e) => return Err(e),
    };
    let password = match read_env(psql_password, PSQL_PASS_VAR) {
        Ok(v) => v,
        Err(e) => return Err(e),
    };
    let address = match read_address_env(psql_address) {
        Ok(v) => v,
        Err(e) => return Err(e),
    };
    let default_db = match read_env(psql_default_db, PSQL_DB_VAR) {
        Ok(v) => v,
        Err(e) => return Err(e),
    };
    let vss_db = match read_env(psql_vss_db, PSQL_VSS_DB_VAR) {
        Ok(v) => v,
        Err(e) => return Err(e),
    };
    let tls = match read_env(psql_tls, PSQL_TLS_VAR) {
        Ok(v) => v,
        Err(e) => return Err(e),
    };
    let crt_pem = match read_env(psql_crt_pem, PSQL_CERT_PEM_VAR) {
        Ok(v) => v,
        Err(e) => return Err(e),
    };
    Ok(EnvSettings { rsa_pem, username, password, address, default_db, vss_db, tls, crt_pem })
}

/// Puts the file and the settings of the environment together, in the
/// order of [`merged`]: the configuration, or the error for the first
/// required setting that neither gives.
pub fn merge_settings(config: Config, settings: EnvSettings) -> (r: Result<Configuration, String>)
    ensures
        match r {
            Ok(c) => merged(config, settings@) == Ok::<ConfigurationView, Seq<char>>(c@),
            Err(e) => merged(config, settings@) == Err::<ConfigurationView, Seq<char>>(e@),
        },
{
    let Config { server_config, jwt_auth_config, postgresql_config } = config;
    let rsa_pem_config = match jwt_auth_config {
        Some(jwt) => jwt.rsa_pem,
        None => None,
    };
    let rsa_pem = match settings.rsa_pem {
        Some(pem) => Some(pem),
        None => rsa_pem_config,
    };
    let (username_config, password_config, address_config, default_db_config, vss_db_config, tls_config) =
        match postgresql_config {
        Some(c) => (
            c.username,
            c.password,
            c.address,
            c.default_database,
            c.vss_database,
            match c.tls {
                Some(tls) => Some(tls.crt_pem),
                None => None,
            },
        ),
        None => (None, None, None, None, None, None),
    };
    let username = match read_config(settings.username, username_config, USERNAME_ITEM, PSQL_USER_VAR) {
        Ok(v) => v,
        Err(e) => return Err(e),
    };
    let password = match read_config(settings.password, password_config, PASSWORD_ITEM, PSQL_PASS_VAR) {
        Ok(v) => v,
        Err(e) => return Err(e),
    };
    let address = match read_config(settings.address, address_config, ADDRESS_ITEM, PSQL_ADDR_VAR) {
        Ok(v) => v,
        Err(e) => return Err(e),
    };
    let default_db = match read_config(
        settings.default_db,
        default_db_config,
        DEFAULT_DB_ITEM,
        PSQL_DB_VAR,
    ) {
        Ok(v) => v,
        Err(e) => return Err(e),
    };
    let vss_db = match read_config(settings.vss_db, vss_db_config, VSS_DB_ITEM, PSQL_VSS_DB_VAR) {
        Ok(v) => v,
        Err(e) => return Err(e),
    };
    let tls_config = resolve_tls(settings.crt_pem, settings.tls, tls_config);
    let postgresql_prefix = postgresql_prefix(username.as_str(), password.as_str(), &address);
    Ok(
        Configuration {
            bind_address: server_config.bind_address,
            rsa_pem,
            postgresql_prefix,
            default_db,
            vss_db,
            tls_config,
        },
    )
}

/// Resolves the configuration that the server runs with from what its
/// configuration file holds and what its environment holds: exactly
/// [`resolved`].
pub fn build_configuration(config: Config, env: Environment) -> (r: Result<Configuration, String>)
    ensures
        match r {
            Ok(c) => resolved(config, env) == Ok::<ConfigurationView, Seq<char>>(c@),
            Err(e) => resolved(config, env) == Err::<ConfigurationView, Seq<char>>(e@),
        },
{
    let settings = match read_environment(env) {
        Ok(s) => s,
        Err(e) => return Err(e),
    };
    merge_settings(config, settings)
}

/// Loads the configuration that the server runs with from the outcome of
/// reading and parsing its configuration file and from its environment:
/// exactly [`loaded`].
pub fn load_configuration(file: Result<Config, ConfigFileError>, env: Environment) -> (r: Result<
    Configuration,
    String,
>)
    ensures
        match r {
            Ok(c) => loaded(file, env) == Ok::<ConfigurationView, Seq<char>>(c@),
            Err(e) => loaded(file, env) == Err::<ConfigurationView, Seq<char>>(e@),
        },
{
    match file {
        Err(ConfigFileError::Unreadable(detail)) => Err(file_read_failure(detail.as_str())),
        Err(ConfigFileError::Malformed(detail)) => Err(file_parse_failure(detail.as_str())),
        Ok(config) => build_configuration(config, env),
    }
}

} // verus!
