//! What holds of configuration resolution and of loading for every file and
//! every environment. Each property is written here from the inputs alone,
//! and proved of both [`resolved`] (what `build_configuration` returns) and
//! of [`loaded`] on a file that parsed (what `load_configuration` returns).

use vstd::prelude::*;

use crate::resolve::{
    address_failure_message, address_reading, either, env_failure_message, env_reading,
    environment_reading, file_parse_failure_message, file_read_failure_message, loaded,
    missing_setting_message, prefix_text, resolved, tls_choice,
};
use crate::settings::{
    file_address, file_default_db, file_password, file_rsa_pem, file_tls, file_username,
    file_vss_db, AddressEnvValue, Config, ConfigFileError, ConfigurationView, EnvValue,
    Environment,
};

verus! {

/// The text a lookup gives where the variable is set, `None` otherwise.
pub open spec fn env_text(v: EnvValue) -> Option<Seq<char>> {
    match v {
        EnvValue::Present(s) => Some(s@),
        _ => None,
    }
}

/// The address a lookup of the address variable gives, if it gives one.
pub open spec fn env_address_text(v: AddressEnvValue) -> Option<Seq<char>> {
    match v {
        AddressEnvValue::Present(a) => Some(a@),
        _ => None,
    }
}

/// Whether a lookup succeeded, whether or not the variable was set.
pub open spec fn env_readable(v: EnvValue) -> bool {
    !(v is Unreadable)
}

/// Whether every lookup of the environment succeeded and the address
/// variable, if set, names a socket address.
pub open spec fn environment_readable(env: Environment) -> bool {
    &&& env_readable(env.jwt_rsa_pem)
    &&& env_readable(env.psql_username)
    &&& env_readable(env.psql_password)
    &&& !(env.psql_address is Unreadable)
    &&& !(env.psql_address is Malformed)
    &&& env_readable(env.psql_default_db)
    &&& env_readable(env.psql_vss_db)
    &&& env_readable(env.psql_tls)
    &&& env_readable(env.psql_crt_pem)
}

/// Whether every required setting is given by the environment or by the file.
pub open spec fn required_settings_given(config: Config, env: Environment) -> bool {
    &&& (env.psql_username is Present || file_username(config) is Some)
    &&& (env.psql_password is Present || file_password(config) is Some)
    &&& (env.psql_address is Present || file_address(config) is Some)
    &&& (env.psql_default_db is Present || file_default_db(config) is Some)
    &&& (env.psql_vss_db is Present || file_vss_db(config) is Some)
}

/// The value of a setting: the text of the environment where it is set,
/// else the file's.
pub open spec fn env_else_file(env: Option<Seq<char>>, file: Option<Seq<char>>) -> Seq<char> {
    if env is Some {
        env->Some_0
    } else {
        file->Some_0
    }
}

/// The connection prefix, written out: `postgresql://`, the user name, `:`,
/// the password, `@`, the address.
pub open spec fn connection_prefix(u: Seq<char>, p: Seq<char>, a: Seq<char>) -> Seq<char> {
    seq!['p', 'o', 's', 't', 'g', 'r', 'e', 's', 'q', 'l', ':', '/', '/'] + u + seq![':'] + p
        + seq!['@'] + a
}

/// The error for a required setting that neither the file nor the
/// environment gives, written out.
pub open spec fn missing_text(item: Seq<char>, var: Seq<char>) -> Seq<char> {
    item + " must be provided in the configuration file or the environment variable "@ + var
        + " must be set."@
}

/// An outcome succeeds exactly when every lookup succeeds and every required
/// setting is given.
pub open spec fn succeeds_exactly_when_complete(
    config: Config,
    env: Environment,
    r: Result<ConfigurationView, Seq<char>>,
) -> bool {
    r is Ok <==> (environment_readable(env) && required_settings_given(config, env))
}

/// A successful outcome takes each setting from the environment where the
/// environment sets it, else from the file; the bind address from the file.
pub open spec fn takes_environment_over_file(
    config: Config,
    env: Environment,
    r: Result<ConfigurationView, Seq<char>>,
) -> bool {
    r is Ok ==> {
        let c = r->Ok_0;
        &&& c.bind_address == config.server_config.bind_address@
        &&& (env.jwt_rsa_pem matches EnvValue::Present(p) ==> c.rsa_pem == Some(p@))
        &&& (!(env.jwt_rsa_pem is Present) ==> c.rsa_pem == file_rsa_pem(config))
        &&& c.postgresql_prefix == connection_prefix(
            env_else_file(env_text(env.psql_username), file_username(config)),
            env_else_file(env_text(env.psql_password), file_password(config)),
            env_else_file(env_address_text(env.psql_address), file_address(config)),
        )
        &&& (env.psql_username matches EnvValue::Present(u) ==> c.postgresql_prefix.subrange(
            13,
            13 + u@.len() as int,
        ) == u@)
        &&& c.default_db == env_else_file(env_text(env.psql_default_db), file_default_db(config))
        &&& c.vss_db == env_else_file(env_text(env.psql_vss_db), file_vss_db(config))
    }
}

/// A successful outcome's TLS setting: the certificate variable's where it
/// is set; else TLS without a certificate where the TLS variable is set;
/// else the file's.
pub open spec fn follows_tls_rule(
    config: Config,
    env: Environment,
    r: Result<ConfigurationView, Seq<char>>,
) -> bool {
    r is Ok ==> {
        let t = r->Ok_0.tls_config;
        &&& (env.psql_crt_pem matches EnvValue::Present(p) ==> t == Some(Some(p@)))
        &&& (!(env.psql_crt_pem is Present) && env.psql_tls is Present ==> t == Some(
            None::<Seq<char>>,
        ))
        &&& (!(env.psql_crt_pem is Present) && !(env.psql_tls is Present) ==> t == file_tls(
            config,
        ))
    }
}

/// Where every lookup succeeds but the outcome fails, it names a required
/// setting that neither the file nor the environment gives.
pub open spec fn names_a_missing_setting(
    config: Config,
    env: Environment,
    r: Result<ConfigurationView, Seq<char>>,
) -> bool {
    environment_readable(env) && r is Err ==> {
        let e = r->Err_0;
        ||| e == missing_text("PostgreSQL database username"@, "VSS_PSQL_USERNAME"@)
            && !(env.psql_username is Present) && file_username(config) is None
        ||| e == missing_text("PostgreSQL database password"@, "VSS_PSQL_PASSWORD"@)
            && !(env.psql_password is Present) && file_password(config) is None
        ||| e == missing_text("PostgreSQL service address"@, "VSS_PSQL_ADDRESS"@)
            && !(env.psql_address is Present) && file_address(config) is None
        ||| e == missing_text("PostgreSQL default database name"@, "VSS_PSQL_DEFAULT_DB"@)
            && !(env.psql_default_db is Present) && file_default_db(config) is None
        ||| e == missing_text("PostgreSQL vss database name"@, "VSS_PSQL_VSS_DB"@)
            && !(env.psql_vss_db is Present) && file_vss_db(config) is None
    }
}

/// The error for a variable `var` that is set but could not be read, written out.
pub open spec fn unreadable_text(var: Seq<char>, detail: Seq<char>) -> Seq<char> {
    "Failed to load the "@ + var + " environment variable: "@ + detail
}

/// An outcome reports the first lookup of the environment that failed, in
/// the order RSA key, user name, password, address, default database, store
/// database, TLS, certificate.
pub open spec fn reports_first_failed_lookup(
    env: Environment,
    r: Result<ConfigurationView, Seq<char>>,
) -> bool {
    if let EnvValue::Unreadable(d) = env.jwt_rsa_pem {
        r == Err::<ConfigurationView, Seq<char>>(unreadable_text("VSS_JWT_RSA_PEM"@, d@))
    } else if let EnvValue::Unreadable(d) = env.psql_username {
        r == Err::<ConfigurationView, Seq<char>>(unreadable_text("VSS_PSQL_USERNAME"@, d@))
    } else if let EnvValue::Unreadable(d) = env.psql_password {
        r == Err::<ConfigurationView, Seq<char>>(unreadable_text("VSS_PSQL_PASSWORD"@, d@))
    } else if let AddressEnvValue::Unreadable(d) = env.psql_address {
        r == Err::<ConfigurationView, Seq<char>>(unreadable_text("VSS_PSQL_ADDRESS"@, d@))
    } else if let AddressEnvValue::Malformed(d) = env.psql_address {
        r == Err::<ConfigurationView, Seq<char>>(
            "Unable to parse the postgresql address environment variable: "@ + d@,
        )
    } else if let EnvValue::Unreadable(d) = env.psql_default_db {
        r == Err::<ConfigurationView, Seq<char>>(unreadable_text("VSS_PSQL_DEFAULT_DB"@, d@))
    } else if let EnvValue::Unreadable(d) = env.psql_vss_db {
        r == Err::<ConfigurationView, Seq<char>>(unreadable_text("VSS_PSQL_VSS_DB"@, d@))
    } else if let EnvValue::Unreadable(d) = env.psql_tls {
        r == Err::<ConfigurationView, Seq<char>>(unreadable_text("VSS_PSQL_TLS"@, d@))
    } else if let EnvValue::Unreadable(d) = env.psql_crt_pem {
        r == Err::<ConfigurationView, Seq<char>>(unreadable_text("VSS_PSQL_CRT_PEM"@, d@))
    } else {
        true
    }
}

/// The connection prefix holds the whole of each part: it is
/// `postgresql://` + username + `:` + password + `@` + address, so its
/// length is 13 + |u| + 1 + |p| + 1 + |a| and its characters from 13 on are
/// the user name, then `:`, the password, `@` and the address.
pub proof fn law_prefix_shape(u: Seq<char>, p: Seq<char>, a: Seq<char>)
    ensures
        prefix_text(u, p, a) == connection_prefix(u, p, a),
        prefix_text(u, p, a).len() == 13 + u.len() as int + 1 + p.len() + 1 + a.len(),
        prefix_text(u, p, a).subrange(0, 13) == "postgresql://"@,
        prefix_text(u, p, a).subrange(13, 13 + u.len() as int) == u,
        prefix_text(u, p, a)[13 + u.len() as int] == ':',
        prefix_text(u, p, a).subrange(14 + u.len() as int, 14 + u.len() as int + p.len()) == p,
        prefix_text(u, p, a)[14 + u.len() as int + p.len()] == '@',
        prefix_text(u, p, a).subrange(
            15 + u.len() as int + p.len(),
            15 + u.len() as int + p.len() + a.len(),
        ) == a,
{
    reveal_strlit("postgresql://");
    reveal_strlit(":");
    reveal_strlit("@");
    let s = prefix_text(u, p, a);
    let c = connection_prefix(u, p, a);
    assert(s =~= c);
    assert(s.subrange(0, 13) =~= "postgresql://"@);
    assert(s.subrange(13, 13 + u.len() as int) =~= u);
    assert(s.subrange(14 + u.len() as int, 14 + u.len() as int + p.len()) =~= p);
    assert(s.subrange(15 + u.len() as int + p.len(), 15 + u.len() as int + p.len() + a.len()) =~= a);
}

/// Helper: the facts of [`law_prefix_shape`] for every prefix at once.
proof fn lemma_all_prefixes()
    ensures
        forall|u: Seq<char>, p: Seq<char>, a: Seq<char>|
            #[trigger] prefix_text(u, p, a) == connection_prefix(u, p, a),
        forall|u: Seq<char>, p: Seq<char>, a: Seq<char>|
            (#[trigger] connection_prefix(u, p, a)).subrange(13, 13 + u.len() as int) == u,
{
    assert forall|u: Seq<char>, p: Seq<char>, a: Seq<char>|
        #[trigger] prefix_text(u, p, a) == connection_prefix(u, p, a) by {
        law_prefix_shape(u, p, a);
    }
    assert forall|u: Seq<char>, p: Seq<char>, a: Seq<char>|
        (#[trigger] connection_prefix(u, p, a)).subrange(13, 13 + u.len() as int) == u by {
        assert(connection_prefix(u, p, a).subrange(13, 13 + u.len() as int) =~= u);
    }
}

/// Loading a file that parsed gives what resolving it gives under the same
/// environment: loading drops nothing of the environment.
pub proof fn law_load_of_parsed_file(config: Config, env: Environment)
    ensures
        loaded(Ok(config), env) == resolved(config, env),
{
}

/// Resolution, and loading of a file that parsed, succeed exactly when every
/// lookup of the environment succeeds and every required setting is given
/// by the environment or by the file.
pub proof fn law_success_condition(config: Config, env: Environment)
    ensures
        succeeds_exactly_when_complete(config, env, resolved(config, env)),
        succeeds_exactly_when_complete(config, env, loaded(Ok(config), env)),
{
}

/// A variable that the environment sets wins over the file; where it is not
/// set the file's value is taken. This holds of the RSA key, of the user
/// name, password and address that make up the connection prefix, and of
/// both database names; the bind address always comes from the file.
pub proof fn law_environment_overrides_file(config: Config, env: Environment)
    ensures
        takes_environment_over_file(config, env, resolved(config, env)),
        takes_environment_over_file(config, env, loaded(Ok(config), env)),
{
    lemma_all_prefixes();
}

/// TLS: a certificate in the environment turns TLS on with that certificate;
/// else the TLS variable, whatever its value, turns TLS on without one; else
/// the file decides (TLS where it has a TLS table, with the certificate that
/// table names, if any).
pub proof fn law_tls_choice(config: Config, env: Environment)
    ensures
        follows_tls_rule(config, env, resolved(config, env)),
        follows_tls_rule(config, env, loaded(Ok(config), env)),
{
}

/// A lookup of the environment that failed is the error, whatever the file
/// holds: the first one that failed is reported, naming its variable and
/// the failure, and two files resolve, and load, to the same error under
/// such an environment.
pub proof fn law_environment_failure_wins(config1: Config, config2: Config, env: Environment)
    requires
        !environment_readable(env),
    ensures
        reports_first_failed_lookup(env, resolved(config1, env)),
        reports_first_failed_lookup(env, loaded(Ok(config1), env)),
        resolved(config1, env) is Err,
        resolved(config1, env) == resolved(config2, env),
        loaded(Ok(config1), env) is Err,
        loaded(Ok(config1), env) == loaded(Ok(config2), env),
{
}

/// The environment alone suffices: where it sets every required setting and
/// every lookup succeeds, resolution and loading succeed whatever the file's
/// PostgreSQL section holds, with the environment's connection prefix and
/// database names.
pub proof fn law_environment_alone_suffices(config: Config, env: Environment)
    requires
        environment_readable(env),
        env.psql_username is Present,
        env.psql_password is Present,
        env.psql_address is Present,
        env.psql_default_db is Present,
        env.psql_vss_db is Present,
    ensures
        resolved(config, env) is Ok,
        resolved(config, env)->Ok_0.postgresql_prefix == connection_prefix(
            env.psql_username->Present_0@,
            env.psql_password->Present_0@,
            env.psql_address->Present_0@,
        ),
        resolved(config, env)->Ok_0.default_db == env.psql_default_db->Present_0@,
        resolved(config, env)->Ok_0.vss_db == env.psql_vss_db->Present_0@,
        loaded(Ok(config), env) is Ok,
        loaded(Ok(config), env)->Ok_0.postgresql_prefix == connection_prefix(
            env.psql_username->Present_0@,
            env.psql_password->Present_0@,
            env.psql_address->Present_0@,
        ),
        loaded(Ok(config), env)->Ok_0.default_db == env.psql_default_db->Present_0@,
        loaded(Ok(config), env)->Ok_0.vss_db == env.psql_vss_db->Present_0@,
{
    lemma_all_prefixes();
}

/// Where every lookup succeeds but resolution (or loading of a file that
/// parsed) fails, the error names a required setting that neither the file
/// nor the environment gives, and the variable that would give it.
pub proof fn law_missing_setting_error(config: Config, env: Environment)
    ensures
        names_a_missing_setting(config, env, resolved(config, env)),
        names_a_missing_setting(config, env, loaded(Ok(config), env)),
{
}

/// A configuration file that could not be read or parsed is the error,
/// whatever the environment holds, with the failure's own message.
pub proof fn law_file_failure_wins(
    file: Result<Config, ConfigFileError>,
    env1: Environment,
    env2: Environment,
)
    requires
        file is Err,
    ensures
        loaded(file, env1) is Err,
        loaded(file, env1) == loaded(file, env2),
        file matches Err(ConfigFileError::Unreadable(d)) ==> loaded(file, env1) == Err::<
            ConfigurationView,
            Seq<char>,
        >("Failed to read configuration file: "@ + d@),
        file matches Err(ConfigFileError::Malformed(d)) ==> loaded(file, env1) == Err::<
            ConfigurationView,
            Seq<char>,
        >("Failed to parse configuration file: "@ + d@),
{
}

/// What the pieces of resolution give, from their inputs alone: one lookup
/// gives the variable's text or the failure that names it; the address
/// lookup likewise, or the parse failure; a setting is the environment's
/// where it gives one, else the file's; and the TLS choice.
pub proof fn law_single_lookups(
    v: EnvValue,
    var: Seq<char>,
    a: AddressEnvValue,
    e: Option<Seq<char>>,
    f: Option<Seq<char>>,
    crt: Option<Seq<char>>,
    tls: Option<Seq<char>>,
    file: Option<Option<Seq<char>>>,
)
    ensures
        v matches EnvValue::Present(s) ==> env_reading(v, var) == Ok::<
            Option<Seq<char>>,
            Seq<char>,
        >(Some(s@)),
        v is NotPresent ==> env_reading(v, var) == Ok::<Option<Seq<char>>, Seq<char>>(None),
        v matches EnvValue::Unreadable(d) ==> env_reading(v, var) == Err::<
            Option<Seq<char>>,
            Seq<char>,
        >(unreadable_text(var, d@)),
        a matches AddressEnvValue::Present(x) ==> address_reading(a) == Ok::<
            Option<Seq<char>>,
            Seq<char>,
        >(Some(x@)),
        a is NotPresent ==> address_reading(a) == Ok::<Option<Seq<char>>, Seq<char>>(None),
        a matches AddressEnvValue::Unreadable(d) ==> address_reading(a) == Err::<
            Option<Seq<char>>,
            Seq<char>,
        >(unreadable_text("VSS_PSQL_ADDRESS"@, d@)),
        a matches AddressEnvValue::Malformed(d) ==> address_reading(a) == Err::<
            Option<Seq<char>>,
            Seq<char>,
        >("Unable to parse the postgresql address environment variable: "@ + d@),
        e is Some ==> either(e, f) == e,
        e is None ==> either(e, f) == f,
        crt is Some ==> tls_choice(crt, tls, file) == Some(crt),
        crt is None && tls is Some ==> tls_choice(crt, tls, file) == Some(None::<Seq<char>>),
        crt is None && tls is None ==> tls_choice(crt, tls, file) == file,
{
}

/// Where every lookup succeeds, the environment's settings are the texts of
/// the variables that are set.
pub proof fn law_environment_settings(env: Environment)
    requires
        environment_readable(env),
    ensures
        environment_reading(env) is Ok,
        environment_reading(env)->Ok_0.rsa_pem == env_text(env.jwt_rsa_pem),
        environment_reading(env)->Ok_0.username == env_text(env.psql_username),
        environment_reading(env)->Ok_0.password == env_text(env.psql_password),
        environment_reading(env)->Ok_0.address == env_address_text(env.psql_address),
        environment_reading(env)->Ok_0.default_db == env_text(env.psql_default_db),
        environment_reading(env)->Ok_0.vss_db == env_text(env.psql_vss_db),
        environment_reading(env)->Ok_0.tls == env_text(env.psql_tls),
        environment_reading(env)->Ok_0.crt_pem == env_text(env.psql_crt_pem),
{
}

/// The errors, written out: each holds the text that names what failed and
/// ends with the detail (or the variable) it was given.
pub proof fn law_messages(var: Seq<char>, item: Seq<char>, detail: Seq<char>)
    ensures
        env_failure_message(var, detail) == unreadable_text(var, detail),
        address_failure_message(detail)
            == "Unable to parse the postgresql address environment variable: "@ + detail,
        missing_setting_message(item, var) == missing_text(item, var),
        file_read_failure_message(detail) == "Failed to read configuration file: "@ + detail,
        file_parse_failure_message(detail) == "Failed to parse configuration file: "@ + detail,
{
}

} // verus!
