use terminal_screensaver::Color;
use terminal_screensaver::KeyPress;
use terminal_screensaver::Rect;
use terminal_screensaver::ScreensaverAction;
use terminal_screensaver::WaveAnimationFeature;

#[test]
fn one_tick_advances_the_phase_to_a_tenth() {
    // amplitude 8, frequency 0.3, speed 0.1 (in thousandths: 8000/300/100).
    let mut f = WaveAnimationFeature::new();
    assert_eq!((f.amplitude, f.frequency, f.speed, f.time), (8_000, 300, 100, 0));
    let lines = f.render(Rect::from_size(80, 24));
    // After one tick the accumulator is exactly 0.1 radians.
    assert_eq!(f.time, 100);
    assert_eq!(lines.len(), 24);

    // At x = 0 the angle is the phase alone: sin(0.1) ~ 0.101 here, so the
    // curve sits at 12000 + 8000 * 101 / 1000 = 12808 thousandths.
    // Row 13 is within half a row of the curve: the main wave glyph.
    assert_eq!(lines[13].content.chars().next(), Some('~'));
    // Row 12 is the next band out.
    assert_eq!(lines[12].content.chars().next(), Some('`'));
    // Below the center line the wave is blue, above it cyan.
    assert_eq!(lines[13].color, Some(Color::Blue));
    assert_eq!(lines[12].color, Some(Color::Cyan));
    // A tall area opens with the centered cyan title and a blank row.
    let title = "ASCII Wave Animation";
    let padding = (80 - title.len()) / 2;
    assert_eq!(lines[0].content, format!("{}{}", " ".repeat(padding), title));
    assert_eq!(lines[0].color, Some(Color::Cyan));
    assert_eq!(lines[1].content, "");
    // Every wave row spans the full width.
    assert_eq!(lines[5].content.chars().count(), 80);
}

#[test]
fn short_areas_have_no_title_rows() {
    let mut f = WaveAnimationFeature::new();
    let lines = f.render(Rect::from_size(20, 4));
    assert_eq!(lines.len(), 4);
    assert_eq!(lines[0].content.chars().count(), 20);
}

#[test]
fn space_toggles_the_presets() {
    let mut f = WaveAnimationFeature::new();
    assert_eq!(f.handle_input(KeyPress::Char(' ')), ScreensaverAction::Continue);
    assert_eq!((f.speed, f.frequency, f.amplitude), (20, 100, 3_000));
    f.handle_input(KeyPress::Char(' '));
    assert_eq!((f.speed, f.frequency, f.amplitude), (150, 500, 10_000));
}

#[test]
fn speed_nudges_clamp_into_their_bounds() {
    let mut f = WaveAnimationFeature::new();
    for _ in 0..60 {
        f.handle_input(KeyPress::Char('+'));
    }
    assert_eq!(f.speed, 500);
    for _ in 0..80 {
        f.handle_input(KeyPress::Char('-'));
    }
    assert_eq!(f.speed, 10);
    assert_eq!(f.handle_input(KeyPress::Esc), ScreensaverAction::Exit);
    assert_eq!(f.handle_input(KeyPress::Enter), ScreensaverAction::NextScreen);
}

#[test]
fn resize_changes_nothing() {
    let mut f = WaveAnimationFeature::new();
    f.resize(Rect::from_size(1, 1));
    assert_eq!((f.time, f.speed, f.amplitude, f.frequency), (0, 100, 8_000, 300));
}
