use terminal_screensaver::config::default_config;
use terminal_screensaver::Config;

#[test]
fn test_config_creation() {
    let config = Config {
        text: "Test".to_string(),
        style: "default".to_string(),
        actions: vec![],
    };
    assert_eq!(config.text, "Test");
    assert_eq!(config.style, "default");
}

#[test]
fn default_config_values() {
    let config = default_config();
    assert_eq!(config.text, "Welcome to Terminal Screensaver");
    assert_eq!(config.style, "default");
    assert!(config.actions.is_empty());
}
