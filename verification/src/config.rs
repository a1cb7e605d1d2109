//! The configuration of the programs, and what the environment changes of it.

use crate::text::{owned, parse_u16, u16_value};
use vstd::prelude::*;

verus! {

/// The configuration of the programs.
#[derive(Debug)]
pub struct AppConfig {
    pub server: ServerConfig,
    pub database: DatabaseConfig,
    pub security: SecurityConfig,
    pub log: LogConfig,
    pub init: InitConfig,
    pub sweeper: SweeperConfig,
    pub notification: NotificationConfig,
}

/// How notifications point to the frontend.
#[derive(Debug)]
pub struct NotificationConfig {
    pub frontend_base_url: String,
}

/// Where the server listens.
#[derive(Debug)]
pub struct ServerConfig {
    pub port: u16,
}

/// Where the data is.
#[derive(Debug)]
pub struct DatabaseConfig {
    pub mongo_url: String,
    pub redis_url: String,
}

/// What secrets are sealed with.
#[derive(Debug)]
pub struct SecurityConfig {
    pub variable_encrypt_key: String,
}

/// What is logged, and how.
#[derive(Debug)]
pub struct LogConfig {
    pub level: String,
    pub format: String,
}

/// Whether the sweeper works, how often, and how much it does at a time.
#[derive(Clone, Copy, Debug, PartialEq, Eq, Structural)]
pub struct SweeperConfig {
    pub enabled: bool,
    pub interval_secs: u64,
    pub max_recover_per_cycle: u32,
}

/// The first user and the first tenant.
#[derive(Debug)]
pub struct InitConfig {
    pub admin_username: String,
    pub admin_password: String,
    pub admin_email: String,
    pub default_tenant_name: String,
    pub default_tenant_description: String,
}

/// Where the frontend is, if the configuration does not say.
pub fn default_frontend_base_url() -> (r: String)
    ensures
        r@ == "http://localhost:5173"@,
{
    owned("http://localhost:5173")
}

impl Default for NotificationConfig {
    fn default() -> (r: Self)
        ensures
            r.frontend_base_url@ == "http://localhost:5173"@,
    {
        NotificationConfig { frontend_base_url: default_frontend_base_url() }
    }
}

impl Default for SweeperConfig {
    fn default() -> (r: Self)
        ensures
            r == (SweeperConfig { enabled: true, interval_secs: 60, max_recover_per_cycle: 10 }),
    {
        SweeperConfig { enabled: true, interval_secs: 60, max_recover_per_cycle: 10 }
    }
}

/// What the environment says of the settings that it can change.
#[derive(Debug)]
pub struct EnvOverrides {
    pub mongo_url: Option<String>,
    pub redis_url: Option<String>,
    pub api_port: Option<String>,
    pub variable_encrypt_key: Option<String>,
    pub log_level: Option<String>,
}

/// A setting after the environment has been asked.
pub open spec fn overridden(was: String, env: Option<String>) -> String {
    match env {
        Some(v) => v,
        None => was,
    }
}

/// The port after the environment has been asked: what is no port counts as not said.
pub open spec fn overridden_port(was: u16, env: Option<String>) -> u16 {
    match env {
        Some(v) => match u16_value(v@) {
            Some(p) => p,
            None => was,
        },
        None => was,
    }
}

/// A configuration after the environment has been asked: what it says counts, and nothing else
/// changes.
pub open spec fn with_env(config: AppConfig, env: EnvOverrides) -> AppConfig {
    AppConfig {
        server: ServerConfig { port: overridden_port(config.server.port, env.api_port) },
        database: DatabaseConfig {
            mongo_url: overridden(config.database.mongo_url, env.mongo_url),
            redis_url: overridden(config.database.redis_url, env.redis_url),
        },
        security: SecurityConfig {
            variable_encrypt_key: overridden(
                config.security.variable_encrypt_key,
                env.variable_encrypt_key,
            ),
        },
        log: LogConfig {
            level: overridden(config.log.level, env.log_level),
            format: config.log.format,
        },
        ..config
    }
}

/// Changes a configuration as the environment says.
pub fn override_settings(config: &mut AppConfig, env: EnvOverrides)
    ensures
        *final(config) == with_env(*old(config), env),
{
    if let Some(v) = env.mongo_url {
        config.database.mongo_url = v;
    }
    if let Some(v) = env.redis_url {
        config.database.redis_url = v;
    }
    if let Some(v) = env.api_port {
        if let Some(port) = parse_u16(v.as_str()) {
            config.server.port = port;
        }
    }
    if let Some(v) = env.variable_encrypt_key {
        config.security.variable_encrypt_key = v;
    }
    if let Some(v) = env.log_level {
        config.log.level = v;
    }
}

/// Whether `env` is what a lookup of the variables may give.
pub open spec fn looked_up<F: Fn(&str) -> Option<String>>(lookup: F, env: EnvOverrides) -> bool {
    &&& call_ensures(lookup, ("MONGO_URL",), env.mongo_url)
    &&& call_ensures(lookup, ("REDIS_URL",), env.redis_url)
    &&& call_ensures(lookup, ("API_PORT",), env.api_port)
    &&& call_ensures(lookup, ("VARIABLE_ENCRYPT_KEY",), env.variable_encrypt_key)
    &&& call_ensures(lookup, ("LOG_LEVEL",), env.log_level)
}

/// Changes a configuration as the environment says, where `lookup` gives the value of a variable of
/// the environment.
pub fn apply_env_overrides<F: Fn(&str) -> Option<String>>(config: &mut AppConfig, lookup: F)
    requires
        forall|k: &str| call_requires(lookup, (k,)),
    ensures
        exists|env: EnvOverrides| #[trigger]
            looked_up(lookup, env) && *final(config) == with_env(*old(config), env),
{
    let env = EnvOverrides {
        mongo_url: lookup("MONGO_URL"),
        redis_url: lookup("REDIS_URL"),
        api_port: lookup("API_PORT"),
        variable_encrypt_key: lookup("VARIABLE_ENCRYPT_KEY"),
        log_level: lookup("LOG_LEVEL"),
    };
    assert(looked_up(lookup, env));
    override_settings(config, env);
}

/// An environment that says nothing changes nothing, and a port that is no number changes nothing.
pub proof fn law_silence_changes_nothing(config: AppConfig, env: EnvOverrides)
    requires
        env.mongo_url is None,
        env.redis_url is None,
        env.api_port matches Some(p) ==> u16_value(p@) is None,
        env.variable_encrypt_key is None,
        env.log_level is None,
    ensures
        with_env(config, env) == config,
{
}

/// Each variable of the environment sets its own setting and no other; a setting whose variable is
/// not set stays as it was.
pub proof fn law_each_variable_sets_its_own_setting(config: AppConfig, env: EnvOverrides)
    ensures
        ({
            let after = with_env(config, env);
            &&& env.mongo_url matches Some(v) ==> after.database.mongo_url == v
            &&& env.mongo_url is None ==> after.database.mongo_url == config.database.mongo_url
            &&& env.redis_url matches Some(v) ==> after.database.redis_url == v
            &&& env.redis_url is None ==> after.database.redis_url == config.database.redis_url
            &&& env.variable_encrypt_key matches Some(v) ==> after.security.variable_encrypt_key
                == v
            &&& env.variable_encrypt_key is None ==> after.security.variable_encrypt_key
                == config.security.variable_encrypt_key
            &&& env.log_level matches Some(v) ==> after.log.level == v
            &&& env.log_level is None ==> after.log.level == config.log.level
            &&& (env.api_port matches Some(v) && u16_value(v@) is Some) ==> Some(after.server.port)
                == u16_value(env.api_port->0@)
            &&& !(env.api_port matches Some(v) && u16_value(v@) is Some) ==> after.server.port
                == config.server.port
            &&& after.log.format == config.log.format
        }),
{
}

/// A port that is written in decimal digits is that port.
pub proof fn law_a_written_port_is_taken(config: AppConfig, env: EnvOverrides, port: u16)
    requires
        env.api_port is Some,
        env.api_port->0@ == crate::text::decimal(port as nat),
    ensures
        with_env(config, env).server.port == port,
{
    crate::text::law_written_numbers_are_read(port);
}

} // verus!
