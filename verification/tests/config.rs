use workflow::config::{
    apply_env_overrides, AppConfig, DatabaseConfig, InitConfig, LogConfig, NotificationConfig,
    SecurityConfig, ServerConfig, SweeperConfig,
};

fn default_config() -> AppConfig {
    AppConfig {
        server: ServerConfig { port: 3000 },
        database: DatabaseConfig {
            mongo_url: "mongodb://localhost".into(),
            redis_url: "redis://localhost".into(),
        },
        security: SecurityConfig { variable_encrypt_key: "default".into() },
        log: LogConfig { level: "info".into(), format: "json".into() },
        init: InitConfig {
            admin_username: "admin".into(),
            admin_password: "admin".into(),
            admin_email: "a@b.com".into(),
            default_tenant_name: "default".into(),
            default_tenant_description: "".into(),
        },
        sweeper: Default::default(),
        notification: Default::default(),
    }
}

#[test]
fn apply_env_overrides_modifies_config() {
    let mut config = default_config();
    let overrides = [
        ("MONGO_URL", "mongodb://prod"),
        ("REDIS_URL", "redis://prod"),
        ("API_PORT", "8080"),
        ("VARIABLE_ENCRYPT_KEY", "prod-key"),
        ("LOG_LEVEL", "debug"),
    ];
    apply_env_overrides(&mut config, |k: &str| {
        overrides.iter().find(|(ok, _)| *ok == k).map(|(_, v)| v.to_string())
    });
    assert_eq!(config.database.mongo_url, "mongodb://prod");
    assert_eq!(config.database.redis_url, "redis://prod");
    assert_eq!(config.server.port, 8080);
    assert_eq!(config.security.variable_encrypt_key, "prod-key");
    assert_eq!(config.log.level, "debug");
}

#[test]
fn apply_env_overrides_no_vars_no_change() {
    let mut config = default_config();
    let port_before = config.server.port;
    apply_env_overrides(&mut config, |_: &str| None);
    assert_eq!(config.server.port, port_before);
}

#[test]
fn apply_env_overrides_invalid_port_ignored() {
    let mut config = default_config();
    apply_env_overrides(
        &mut config,
        |k: &str| if k == "API_PORT" { Some("abc".into()) } else { None },
    );
    assert_eq!(config.server.port, 3000);
}

#[test]
fn what_the_environment_does_not_name_stays() {
    let mut config = default_config();
    apply_env_overrides(
        &mut config,
        |k: &str| if k == "LOG_LEVEL" { Some("warn".into()) } else { None },
    );
    assert_eq!(config.log.level, "warn");
    assert_eq!(config.log.format, "json");
    assert_eq!(config.database.mongo_url, "mongodb://localhost");
    assert_eq!(config.init.admin_username, "admin");
}

#[test]
fn ports_are_read_as_numbers_of_sixteen_bits() {
    for (text, port) in [("1", 1u16), ("+80", 80), ("00443", 443), ("65535", 65535)] {
        let mut config = default_config();
        apply_env_overrides(
            &mut config,
            |k: &str| if k == "API_PORT" { Some(text.to_string()) } else { None },
        );
        assert_eq!(config.server.port, port);
        assert_eq!(text.parse::<u16>(), Ok(port));
    }
    for text in ["", "+", "-1", "65536", "99999999999999999999", "8 0", "80.0"] {
        let mut config = default_config();
        apply_env_overrides(
            &mut config,
            |k: &str| if k == "API_PORT" { Some(text.to_string()) } else { None },
        );
        assert_eq!(config.server.port, 3000);
        assert!(text.parse::<u16>().is_err());
    }
}

#[test]
fn defaults_of_what_can_be_left_out() {
    let sweeper = SweeperConfig::default();
    assert!(sweeper.enabled);
    assert_eq!(sweeper.interval_secs, 60);
    assert_eq!(sweeper.max_recover_per_cycle, 10);
    assert_eq!(NotificationConfig::default().frontend_base_url, "http://localhost:5173");
}
