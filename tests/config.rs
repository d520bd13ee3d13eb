use rprint::config::{default_history_limit, default_host, default_port, AppConfig};

#[test]
fn test_default_config() {
    let config = AppConfig::default();
    assert_eq!(config.server.port, 9100);
    assert!(config.ui.start_minimized);
}

#[test]
fn default_config_fields() {
    let config = AppConfig::default();
    assert_eq!(config.server.host, "0.0.0.0");
    assert!(config.server.auto_start);
    assert!(config.ui.minimize_on_close);
    assert!(!config.ui.auto_launch);
    assert_eq!(config.ui.history_limit, 100);
    assert_eq!(config.printer.default_printer, None);
    assert_eq!(config.printer.zpl_printer, None);
    assert_eq!(default_port(), 9100);
    assert_eq!(default_host(), "0.0.0.0");
    assert_eq!(default_history_limit(), 100);
}
