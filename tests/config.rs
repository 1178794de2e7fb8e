use valk::config::{ComputerInfo, Config, MonitorConfig, DEFAULT_HOST, DEFAULT_PORT};

#[test]
fn config_test_default_config() {
    let config = Config::default();
    assert_eq!(config.port, DEFAULT_PORT);
    assert_eq!(config.host, DEFAULT_HOST);
}

#[test]
fn config_test_env_override() {
    let config = Config::with_overrides(Some("127.0.0.1".to_string()), Some("9090".to_string()));
    assert_eq!(config.port, 9090);
    assert_eq!(config.host, "127.0.0.1");
}

#[test]
fn unreadable_port_keeps_default() {
    let config = Config::with_overrides(None, Some("http".to_string()));
    assert_eq!(config.port, 8255);
    assert_eq!(config.host, "0.0.0.0");
    let config = Config::with_overrides(None, Some("70000".to_string()));
    assert_eq!(config.port, 8255);
}

#[test]
fn monitor_config_sends_everything_by_default() {
    let m = MonitorConfig::default();
    assert!(m.always_send_screen_updates);
    assert!(m.always_send_cursor_updates);
    let info = ComputerInfo {
        os_type: "Linux".to_string(),
        os_version: "6".to_string(),
        display_width: 1920,
        display_height: 1080,
    };
    assert_eq!(info.display_width, 1920);
}
