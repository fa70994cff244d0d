use killer::config::{
    config_path, default_kill_method, default_log_level, default_true, Config, KillMethod,
};

fn sample() -> Config {
    Config {
        license_id: "test_license".to_string(),
        server_url: "http://localhost:8080".to_string(),
        shared_secret: "secret123".to_string(),
        check_interval_ms: 0,
        self_destruct: true,
        kill_method: KillMethod::Shred,
        log_level: "info".to_string(),
        base_binary_path: None,
    }
}

#[test]
fn test_config_validation() {
    let mut config = Config {
        license_id: "test_license".to_string(),
        server_url: "http://localhost:8080".to_string(),
        shared_secret: "secret123".to_string(),
        check_interval_ms: 0,
        self_destruct: true,
        kill_method: KillMethod::Shred,
        log_level: "info".to_string(),
        base_binary_path: None,
    };

    assert!(config.validate(None).is_ok());

    config.license_id = "".to_string();
    assert!(config.validate(None).is_err());
}

#[test]
fn validate_names_the_first_rule_broken() {
    let mut config = sample();
    config.license_id = String::new();
    config.server_url = String::new();
    config.shared_secret = String::new();
    assert_eq!(config.validate(None), Err("license_id cannot be empty".to_string()));

    config.license_id = "lic".to_string();
    assert_eq!(config.validate(None), Err("server_url cannot be empty".to_string()));

    config.server_url = "ftp://example.com".to_string();
    assert_eq!(config.validate(None), Err("shared_secret cannot be empty".to_string()));

    config.shared_secret = "s".to_string();
    assert_eq!(
        config.validate(None),
        Err("server_url must start with http:// or https://".to_string())
    );

    config.server_url = "https://example.com".to_string();
    assert_eq!(config.validate(None), Ok(()));
}

#[test]
fn validate_checks_the_scheme_exactly() {
    let mut config = sample();
    for url in ["http://", "https://", "http://a", "https://a/b"] {
        config.server_url = url.to_string();
        assert_eq!(config.validate(None), Ok(()));
    }
    for url in ["http:/", "https:/x", "HTTP://a", " http://a", "h", "httpx://a"] {
        config.server_url = url.to_string();
        assert_eq!(
            config.validate(None),
            Err("server_url must start with http:// or https://".to_string())
        );
    }
}

#[test]
fn validate_reads_the_address_in_force() {
    let mut config = sample();
    config.server_url = String::new();
    assert_eq!(config.validate(Some("https://built.example")), Ok(()));
    assert_eq!(config.validate(Some("")), Err("server_url cannot be empty".to_string()));

    config.server_url = "http://localhost:8080".to_string();
    assert_eq!(
        config.validate(Some("built.example")),
        Err("server_url must start with http:// or https://".to_string())
    );
}

#[test]
fn server_url_prefers_the_built_in_address() {
    let config = sample();
    assert_eq!(config.get_server_url(None), "http://localhost:8080");
    assert_eq!(config.get_server_url(Some("")), "http://localhost:8080");
    assert_eq!(config.get_server_url(Some("https://built.example")), "https://built.example");
}

#[test]
fn kill_method_from_str_ignores_case() {
    assert_eq!(KillMethod::from_str("stop"), Some(KillMethod::Stop));
    assert_eq!(KillMethod::from_str("STOP"), Some(KillMethod::Stop));
    assert_eq!(KillMethod::from_str("Delete"), Some(KillMethod::Delete));
    assert_eq!(KillMethod::from_str("sHrEd"), Some(KillMethod::Shred));
    assert_eq!(KillMethod::from_str(""), None);
    assert_eq!(KillMethod::from_str("kill"), None);
    assert_eq!(KillMethod::from_str(" stop"), None);
    assert_eq!(KillMethod::from_str("stop "), None);
    assert_eq!(KillMethod::from_str("shredd"), None);
}

#[test]
fn kill_method_from_lowercase_is_exact() {
    assert_eq!(KillMethod::from_lowercase("stop"), Some(KillMethod::Stop));
    assert_eq!(KillMethod::from_lowercase("delete"), Some(KillMethod::Delete));
    assert_eq!(KillMethod::from_lowercase("shred"), Some(KillMethod::Shred));
    assert_eq!(KillMethod::from_lowercase("Stop"), None);
    assert_eq!(KillMethod::from_lowercase("SHRED"), None);
    assert_eq!(KillMethod::from_lowercase("sto"), None);
}

#[test]
fn defaults_are_as_documented() {
    assert!(default_true());
    assert_eq!(default_kill_method(), KillMethod::Shred);
    assert_eq!(default_log_level(), "info");
}

#[test]
fn settings_lie_beside_the_executable() {
    assert_eq!(config_path("/opt/app/guarded"), "/opt/app/guarded.config");
    assert_eq!(config_path("myapp"), "myapp.config");
    assert_eq!(config_path(""), ".config");
}
