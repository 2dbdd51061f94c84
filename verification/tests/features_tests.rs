use terminal_screensaver::engine::find_action;
use terminal_screensaver::engine::loop_key_action;
use terminal_screensaver::engine::POLL_INTERVAL_CLOCK_MS;
use terminal_screensaver::engine::POLL_INTERVAL_FAST_MS;
use terminal_screensaver::features::get_available_features;
use terminal_screensaver::features::get_feature_description;
use terminal_screensaver::get_style;
use terminal_screensaver::ActionConfig;
use terminal_screensaver::Color;
use terminal_screensaver::KeyPress;
use terminal_screensaver::Rect;
use terminal_screensaver::ScreensaverAction;
use terminal_screensaver::SystemInfoFeature;

#[test]
fn the_registry_lists_both_features() {
    let features = get_available_features();
    assert_eq!(features, vec!["text_display", "bouncing_logo"]);
    assert_eq!(
        get_feature_description("text_display"),
        Some("Static and animated text display with customizable content")
    );
    assert_eq!(
        get_feature_description("bouncing_logo"),
        Some("Animated bouncing text or logo with physics")
    );
    assert_eq!(get_feature_description("unknown"), None);
}

#[test]
fn escape_is_the_only_default_exit() {
    assert_eq!(loop_key_action(KeyPress::Esc), ScreensaverAction::Exit);
    assert_eq!(loop_key_action(KeyPress::Enter), ScreensaverAction::Continue);
    assert_eq!(loop_key_action(KeyPress::Char('q')), ScreensaverAction::Continue);
    assert_eq!(loop_key_action(KeyPress::Other), ScreensaverAction::Continue);
}

#[test]
fn action_lookup_is_case_insensitive_and_takes_the_first_match() {
    let actions = vec![
        ActionConfig {
            key: "A".to_string(),
            description: "first".to_string(),
            command: "one".to_string(),
        },
        ActionConfig {
            key: "a".to_string(),
            description: "second".to_string(),
            command: "two".to_string(),
        },
        ActionConfig {
            key: "b".to_string(),
            description: "third".to_string(),
            command: "three".to_string(),
        },
    ];
    assert_eq!(find_action(&actions, 'a'), Some(0));
    assert_eq!(find_action(&actions, 'A'), Some(0));
    assert_eq!(find_action(&actions, 'B'), Some(2));
    assert_eq!(find_action(&actions, 'c'), None);
}

#[test]
fn poll_intervals_bound_the_waits() {
    assert_eq!(POLL_INTERVAL_FAST_MS, 50);
    assert_eq!(POLL_INTERVAL_CLOCK_MS, 500);
}

#[test]
fn style_names_map_to_the_fixed_palette() {
    assert_eq!(get_style("default").color, Some(Color::White));
    assert_eq!(get_style("red").color, Some(Color::Red));
    assert_eq!(get_style("blue").color, Some(Color::Blue));
    assert_eq!(get_style("green").color, Some(Color::Green));
    assert_eq!(get_style("no-such-style").color, Some(Color::White));
    assert_eq!(get_style("red").bg_color, None);
}

#[test]
fn system_info_builds_its_page_from_the_snapshot() {
    let mut f = SystemInfoFeature::new();
    assert!(f.needs_refresh(5));
    f.update_system_info(3661, "linux", "x86_64", 3, Some("/tmp".to_string()));
    assert_eq!(f.last_update, 3661);
    assert_eq!(f.content[0], "Current Time: 01:01:01");
    assert_eq!(f.content[1], "Uptime: 3661 seconds");
    assert_eq!(f.content[2], "Memory: Information unavailable");
    assert_eq!(f.content[3], "CPU: Information unavailable");
    assert_eq!(f.content[4], "System: linux");
    assert_eq!(f.content[5], "Architecture: x86_64");
    assert_eq!(f.content[6], "Environment Variables: 3");
    assert_eq!(f.content[7], "Current Dir: /tmp");
    assert_eq!(f.content[8], "");
    assert_eq!(f.content[9], "Press 'r' to refresh, ESC to exit");

    // Within the five-second interval nothing is due; after it, a rebuild is.
    assert!(!f.needs_refresh(3663));
    assert!(f.needs_refresh(3666));
    // The `r` key forces the next render to rebuild.
    assert_eq!(f.handle_input(KeyPress::Char('r')), ScreensaverAction::Continue);
    assert_eq!(f.last_update, 0);
    assert_eq!(f.handle_input(KeyPress::Esc), ScreensaverAction::Exit);
}

#[test]
fn system_info_render_frames_the_page() {
    let mut f = SystemInfoFeature::new();
    f.update_system_info(59, "linux", "arm", 0, None);
    let lines = f.render(Rect::from_size(60, 15));
    assert_eq!(lines.len(), 15);
    assert_eq!(lines[0].content, "=== SYSTEM INFORMATION ===");
    assert_eq!(lines[0].color, Some(Color::Cyan));
    assert_eq!(lines[1].content, "");
    assert_eq!(lines[2].content, "Current Time: 00:00:59");
    assert_eq!(lines[2].color, Some(Color::White));
    // No directory line when the caller knows none.
    assert_eq!(lines[8].content, "Environment Variables: 0");
    assert_eq!(lines[9].content, "");
    assert_eq!(lines[10].content, "Press 'r' to refresh, ESC to exit");
    assert_eq!(lines[14].content, "");
}
