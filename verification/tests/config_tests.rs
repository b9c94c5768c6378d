use agnx::config::Config;
use agnx::config::ConfigError;
use agnx::config::ConfigSource;

#[test]
fn test_default_config() {
    let config = Config::default();
    assert_eq!(config.server.host, "0.0.0.0");
    assert_eq!(config.server.port, 8080);
    assert_eq!(config.server.request_timeout, 30);
}

#[test]
fn test_load_missing_file_returns_defaults() {
    let config = Config::load(ConfigSource::Missing).unwrap();
    assert_eq!(config.server.host, "0.0.0.0");
    assert_eq!(config.server.port, 8080);
}

#[test]
fn test_load_valid_yaml() {
    let text = "\nserver:\n  host: \"127.0.0.1\"\n  port: 3000\n  request_timeout: 60\n";
    let config = Config::load(ConfigSource::Text(text.to_string())).unwrap();
    assert_eq!(config.server.host, "127.0.0.1");
    assert_eq!(config.server.port, 3000);
    assert_eq!(config.server.request_timeout, 60);
}

#[test]
fn test_load_partial_yaml_uses_defaults() {
    let text = "\nserver:\n  port: 9000\n";
    let config = Config::load(ConfigSource::Text(text.to_string())).unwrap();
    assert_eq!(config.server.host, "0.0.0.0"); // default
    assert_eq!(config.server.port, 9000);
    assert_eq!(config.server.request_timeout, 30); // default
}

#[test]
fn test_load_invalid_yaml() {
    let text = "invalid: yaml: content: [\n";
    let result = Config::load(ConfigSource::Text(text.to_string()));
    assert!(result.is_err());
}

#[test]
fn test_config_error_display() {
    let io_error = ConfigError::Io("test".to_string());
    assert!(io_error.message().contains("failed to read config file"));
    assert!(io_error.message().contains("test"));
}

#[test]
fn test_load_unreadable_is_io_error() {
    let result = Config::load(ConfigSource::Unreadable("permission denied".to_string()));
    match result {
        Err(ConfigError::Io(cause)) => assert_eq!(cause, "permission denied"),
        _ => panic!("expected an I/O error"),
    }
}

#[test]
fn test_load_invalid_yaml_is_parse_error_not_defaults() {
    let result = Config::load(ConfigSource::Text("{{{".to_string()));
    match result {
        Err(ConfigError::Yaml(_)) => {}
        _ => panic!("expected a parse error, not a silent fall-back"),
    }
}

#[test]
fn test_load_port_out_of_range_is_parse_error() {
    let result = Config::load(ConfigSource::Text("server:\n  port: 70000\n".to_string()));
    assert!(matches!(result, Err(ConfigError::Yaml(_))));
}

#[test]
fn test_load_negative_port_is_parse_error() {
    let result = Config::load(ConfigSource::Text("server:\n  port: -1\n".to_string()));
    assert!(matches!(result, Err(ConfigError::Yaml(_))));
}

#[test]
fn test_load_wrong_type_host_is_parse_error() {
    let result = Config::load(ConfigSource::Text("server:\n  host: [1, 2]\n".to_string()));
    assert!(matches!(result, Err(ConfigError::Yaml(_))));
}

#[test]
fn test_load_empty_mapping_uses_defaults() {
    let config = Config::load(ConfigSource::Text("unknown_key: 1\n".to_string())).unwrap();
    assert_eq!(config.server.host, "0.0.0.0");
    assert_eq!(config.server.port, 8080);
    assert_eq!(config.server.request_timeout, 30);
}

#[test]
fn test_cli_port_overrides_file_port() {
    let text = "server:\n  port: 3000\n";
    let mut config = Config::load(ConfigSource::Text(text.to_string())).unwrap();
    assert_eq!(config.server.port, 3000);
    config.apply_port_override(Some(5000));
    assert_eq!(config.server.port, 5000);
    assert_eq!(config.server.host, "0.0.0.0");
    assert_eq!(config.server.request_timeout, 30);
}

#[test]
fn test_no_cli_port_keeps_file_port() {
    let text = "server:\n  port: 3000\n";
    let mut config = Config::load(ConfigSource::Text(text.to_string())).unwrap();
    config.apply_port_override(None);
    assert_eq!(config.server.port, 3000);
}

#[test]
fn test_defaults_helpers() {
    assert_eq!(agnx::config::default_host(), "0.0.0.0");
    assert_eq!(agnx::config::default_port(), 8080);
    assert_eq!(agnx::config::default_timeout(), 30);
}
