use rust_socks::config::{AuthSetup, Config, ConfigError};

#[test]
fn test_default_config() {
    let config = Config::default();
    assert_eq!(config.server.bind_addr, "127.0.0.1:1080");
    assert_eq!(config.auth.mode, "none");
    assert_eq!(config.logging.level, "info");
}

#[test]
fn test_config_validation() {
    // The caller parses the bind address as a socket address: "127.0.0.1:1080"
    // parses, "invalid" does not.
    let config = Config::default();
    assert!(config.validate(true).is_ok());

    let mut bad_config = Config::default();
    bad_config.server.bind_addr = "invalid".to_string();
    assert!(bad_config.validate(false).is_err());
}

#[test]
fn config_rejects_unknown_auth_mode_and_log_level() {
    let mut config = Config::default();
    config.auth.mode = "kerberos".to_string();
    assert_eq!(config.validate(true), Err(ConfigError::InvalidAuthMode));
    // The bind address is checked first.
    assert_eq!(config.validate(false), Err(ConfigError::InvalidBindAddr));

    let mut config = Config::default();
    config.logging.level = "verbose".to_string();
    assert_eq!(config.validate(true), Err(ConfigError::InvalidLogLevel));

    for mode in ["none", "password", "multi"] {
        let mut config = Config::default();
        config.auth.mode = mode.to_string();
        for level in ["trace", "debug", "info", "warn", "error"] {
            config.logging.level = level.to_string();
            assert_eq!(config.validate(true), Ok(()));
        }
    }
}

#[test]
fn generated_config_has_example_users() {
    let config = Config::generate_default();
    assert_eq!(config.server.bind_addr, "127.0.0.1:1080");
    assert!(config.server.enable_connect && config.server.enable_bind && config.server.enable_udp);
    assert_eq!(config.server.timeout_secs, 300);
    assert_eq!(
        config.auth.users,
        vec![
            ("admin".to_string(), "admin123".to_string()),
            ("user".to_string(), "password".to_string())
        ]
    );
    assert!(!config.logging.json);
}

#[test]
fn config_default_helpers() {
    assert!(rust_socks::config::default_true());
    assert_eq!(rust_socks::config::default_timeout(), 300);
    assert_eq!(rust_socks::config::default_auth_mode(), "none");
    assert_eq!(rust_socks::config::default_log_level(), "info");
}

#[test]
fn config_bind_override_and_auth_setup() {
    let mut config = Config::generate_default();
    assert_eq!(config.effective_bind_addr(None), "127.0.0.1:1080");
    assert_eq!(config.effective_bind_addr(Some("0.0.0.0:9050".to_string())), "0.0.0.0:9050");

    assert!(matches!(config.auth_setup(false), Ok(AuthSetup::NoAuth)));
    config.auth.mode = "password".to_string();
    match config.auth_setup(false) {
        Ok(AuthSetup::Password(store)) => {
            assert!(store.authenticate("admin", "admin123"));
            assert!(store.authenticate("user", "password"));
            assert!(!store.authenticate("admin", "password"));
        }
        other => panic!("unexpected {:?}", other),
    }
    assert!(matches!(config.auth_setup(true), Ok(AuthSetup::NoAuth)));
    config.auth.mode = "multi".to_string();
    assert!(matches!(config.auth_setup(false), Ok(AuthSetup::Multi(_))));
    config.auth.mode = "other".to_string();
    assert!(matches!(config.auth_setup(false), Err(ConfigError::InvalidAuthMode)));
}
