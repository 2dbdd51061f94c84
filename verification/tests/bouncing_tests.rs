use terminal_screensaver::BouncingLogoFeature;
use terminal_screensaver::Color;
use terminal_screensaver::KeyPress;
use terminal_screensaver::Rect;
use terminal_screensaver::ScreensaverAction;

#[test]
fn bouncing_new_starts_at_the_documented_state() {
    let f = BouncingLogoFeature::new();
    assert_eq!(f.text, "Terminal Screensaver");
    assert_eq!((f.x, f.y), (10_000, 5_000));
    assert_eq!((f.velocity_x, f.velocity_y), (1_000, 500));
    assert_eq!(f.color, Color::Green);
}

#[test]
fn position_stays_inside_the_area_forever() {
    let mut f = BouncingLogoFeature::new();
    let area = Rect::from_size(30, 10);
    for _ in 0..500 {
        f.update_position(area);
        // Text is 20 wide: 0 <= x <= (30 - 20) cells, 0 <= y <= 9 cells.
        assert!(0 <= f.x && f.x <= 10_000);
        assert!(0 <= f.y && f.y <= 9_000);
    }
}

#[test]
fn eighty_by_twenty_four_reaches_the_right_edge_and_reflects() {
    // Area 80x24, text 20 wide, start (10, 5), velocity (1.0, 0.5).
    let mut f = BouncingLogoFeature::new();
    let area = Rect::from_size(80, 24);
    let mut flips_x = 0;
    let mut hit_right = false;
    let mut last_vx = f.velocity_x;
    for _ in 0..71 {
        f.update_position(area);
        if f.velocity_x != last_vx {
            flips_x += 1;
            last_vx = f.velocity_x;
        }
        if f.x == (80 - 20) * 1000 {
            hit_right = true;
        }
    }
    assert!(hit_right);
    assert!(flips_x >= 1);
    // x walked 50 cells right (tick 50 reflects at 60), then 21 ticks left.
    assert_eq!(f.x, 39_000);
    assert_eq!(f.velocity_x, -1_000);
    // One reflection: an odd number of sign flips, consistent with ending
    // left of the right edge while moving left.
    assert_eq!(flips_x % 2, 1);
    assert_eq!(f.y, 5_500);
    assert_eq!(f.velocity_y, -500);
}

#[test]
fn keys_drive_color_speed_and_flow() {
    let mut f = BouncingLogoFeature::new();
    assert_eq!(f.handle_input(KeyPress::Esc), ScreensaverAction::Exit);
    assert_eq!(f.handle_input(KeyPress::Enter), ScreensaverAction::NextScreen);

    assert_eq!(f.handle_input(KeyPress::Char(' ')), ScreensaverAction::Continue);
    assert_eq!(f.color, Color::Cyan);
    f.handle_input(KeyPress::Char(' '));
    assert_eq!(f.color, Color::Yellow);

    // The geometric ramp: 1000 * 6 / 5 = 1200, and back down to 1000.
    f.handle_input(KeyPress::Char('+'));
    assert_eq!((f.velocity_x, f.velocity_y), (1_200, 600));
    f.handle_input(KeyPress::Char('-'));
    assert_eq!((f.velocity_x, f.velocity_y), (1_000, 500));
    f.handle_input(KeyPress::Char('='));
    assert_eq!(f.velocity_x, 1_200);

    let before = (f.x, f.y, f.velocity_x, f.velocity_y);
    assert_eq!(f.handle_input(KeyPress::Other), ScreensaverAction::Continue);
    assert_eq!(before, (f.x, f.y, f.velocity_x, f.velocity_y));
}

#[test]
fn render_draws_the_text_row_and_the_controls() {
    let mut f = BouncingLogoFeature::new();
    let area = Rect::from_size(80, 24);
    let lines = f.render(area);
    assert_eq!(lines.len(), 24);
    // One tick from (10, 5) with velocity (1.0, 0.5): the text sits at
    // column 11, row 5 (5.5 truncated).
    let row = &lines[5];
    assert_eq!(row.content, format!("{}Terminal Screensaver", " ".repeat(11)));
    assert_eq!(row.color, Some(Color::Green));
    // The bottom row carries the centered control hints.
    let controls = "Press ESC to exit | SPACE to change color";
    let padding = (80 - controls.len()) / 2;
    assert_eq!(lines[23].content, format!("{}{}", " ".repeat(padding), controls));
    assert_eq!(lines[23].color, Some(Color::DarkGray));
    // Everything else is empty.
    assert_eq!(lines[0].content, "");
    assert_eq!(lines[12].content, "");
}

#[test]
fn resize_pulls_the_text_back_inside() {
    let mut f = BouncingLogoFeature::new();
    f.x = 50_000;
    f.y = 20_000;
    f.resize(Rect::from_size(30, 10));
    assert_eq!(f.x, 10_000);
    assert_eq!(f.y, 9_000);
}
