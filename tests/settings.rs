use simple_game::settings::{
    font_candidates, port_from_setting, FontConfig, CAPTURE_POLL_INITIAL_MS,
    CAPTURE_POLL_MAX_INTERVAL_MS, CAPTURE_POLL_MULTIPLIER, CAPTURE_WAIT_BUDGET_MS, DEFAULT_PORT,
};

#[test]
fn test_font_config_with_custom_path() {
    let config = FontConfig {
        font_path: Some("/custom/font.ttf".to_string()),
    };
    assert_eq!(config.font_path.as_deref(), Some("/custom/font.ttf"));
}

#[test]
fn font_candidates_put_custom_first() {
    let defaults = vec!["a.ttf".to_string(), "b.ttc".to_string()];
    let config = FontConfig { font_path: Some("/custom/font.ttf".to_string()) };
    assert_eq!(
        font_candidates(&config, &defaults),
        vec!["/custom/font.ttf".to_string(), "a.ttf".to_string(), "b.ttc".to_string()]
    );
    assert_eq!(font_candidates(&FontConfig::default(), &defaults), defaults);
    assert!(font_candidates(&FontConfig::default(), &vec![]).is_empty());
}

#[test]
fn port_setting_is_read_or_defaulted() {
    assert_eq!(DEFAULT_PORT, 9222);
    assert_eq!(port_from_setting(None), 9222);
    assert_eq!(port_from_setting(Some("8080")), 8080);
    assert_eq!(port_from_setting(Some("+81")), 81);
    assert_eq!(port_from_setting(Some("65535")), 65535);
    assert_eq!(port_from_setting(Some("65536")), 9222);
    assert_eq!(port_from_setting(Some("")), 9222);
    assert_eq!(port_from_setting(Some(" 80")), 9222);
    assert_eq!(port_from_setting(Some("-1")), 9222);
    assert_eq!(port_from_setting(Some("port")), 9222);
}

#[test]
fn capture_wait_schedule() {
    assert_eq!(CAPTURE_POLL_INITIAL_MS, 50);
    assert_eq!(CAPTURE_POLL_MULTIPLIER, 2);
    assert_eq!(CAPTURE_POLL_MAX_INTERVAL_MS, 500);
    assert_eq!(CAPTURE_WAIT_BUDGET_MS, 5000);
}
