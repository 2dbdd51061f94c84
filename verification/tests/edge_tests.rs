use terminal_screensaver::text_display::create_text_display;
use terminal_screensaver::BouncingLogoFeature;
use terminal_screensaver::ClockDisplay;
use terminal_screensaver::ClockTime;
use terminal_screensaver::MatrixRain;
use terminal_screensaver::Rect;
use terminal_screensaver::StarfieldFeature;
use terminal_screensaver::SystemInfoFeature;
use terminal_screensaver::WaveAnimationFeature;
use terminal_screensaver::center_text;

#[test]
fn zero_area_renders_produce_empty_frames() {
    let zero = Rect::from_size(0, 0);
    assert!(BouncingLogoFeature::new().render(zero).is_empty());
    assert!(WaveAnimationFeature::new().render(zero).is_empty());
    assert!(StarfieldFeature::new().render(zero).is_empty());
    assert!(MatrixRain::new(0, 0).render(zero).is_empty());
    assert!(SystemInfoFeature::new().render(zero).is_empty());
    let time = ClockTime {
        hour: 0,
        minute: 0,
        second: 0,
        year: 2026,
        month: 1,
        day: 1,
        weekday: 0,
        timezone: String::new(),
    };
    assert!(ClockDisplay::new().render(zero, "", &time).is_empty());
    assert!(create_text_display("Hi", &Vec::new(), 0, 0, true).is_empty());
}

#[test]
fn text_wider_than_the_area_is_not_drawn() {
    // The 20-character text cannot fit a 10-column area: every frame keeps
    // bouncing without ever drawing it, and never fails.
    let mut f = BouncingLogoFeature::new();
    for _ in 0..50 {
        let lines = f.render(Rect::from_size(10, 5));
        assert_eq!(lines.len(), 5);
        assert!(lines.iter().all(|l| !l.content.contains("Terminal")));
    }
}

#[test]
fn centering_an_empty_text_is_pure_padding() {
    assert_eq!(center_text("", 10), "     ");
    assert_eq!(center_text("", 0), "");
}

#[test]
fn one_row_areas_still_render() {
    let mut wave = WaveAnimationFeature::new();
    let lines = wave.render(Rect::from_size(10, 1));
    assert_eq!(lines.len(), 1);
    assert_eq!(lines[0].content.chars().count(), 10);

    let mut logo = BouncingLogoFeature::new();
    assert_eq!(logo.render(Rect::from_size(80, 1)).len(), 1);
}
