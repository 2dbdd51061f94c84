use terminal_screensaver::ClockDisplay;
use terminal_screensaver::ClockTime;
use terminal_screensaver::Color;
use terminal_screensaver::Rect;
use terminal_screensaver::format_two_digits;

fn sample_time() -> ClockTime {
    ClockTime {
        hour: 13,
        minute: 5,
        second: 9,
        year: 2026,
        month: 10,
        day: 12,
        weekday: 1,
        timezone: "UTC".to_string(),
    }
}

#[test]
fn glyph_block_is_five_rows_of_six_n_minus_one() {
    let clock = ClockDisplay::new();
    let rows = clock.create_digital_time("12:34:56");
    assert_eq!(rows.len(), 5);
    for row in rows.iter() {
        // 8 characters, glyphs 5 wide with one separating column:
        // 8 * 6 - 1 = 47.
        assert_eq!(row.chars().count(), 47);
    }
    // The row count is 5 whatever the input length.
    let empty = clock.create_digital_time("");
    assert_eq!(empty.len(), 5);
    assert!(empty.iter().all(|r| r.is_empty()));
    let single = clock.create_digital_time("1");
    assert_eq!(single.len(), 5);
    assert_eq!(single[0], "  █  ");
    assert_eq!(single[4], " ███ ");
}

#[test]
fn time_strings_follow_the_format_flags() {
    let t = sample_time();
    assert_eq!(ClockDisplay::with_config(true, true, true).time_string(&t), "13:05:09");
    assert_eq!(ClockDisplay::with_config(false, true, true).time_string(&t), "13:05");
    assert_eq!(ClockDisplay::with_config(true, true, false).time_string(&t), "01:05:09 PM");
    assert_eq!(ClockDisplay::with_config(false, true, false).time_string(&t), "01:05 PM");

    let mut midnight = sample_time();
    midnight.hour = 0;
    assert_eq!(
        ClockDisplay::with_config(false, true, false).time_string(&midnight),
        "12:05 AM"
    );
}

#[test]
fn date_string_spells_out_the_date() {
    let clock = ClockDisplay::new();
    assert_eq!(clock.date_string(&sample_time()), "Monday, October 12, 2026");
    let mut first = sample_time();
    first.weekday = 0;
    first.month = 1;
    first.day = 5;
    first.year = 999;
    assert_eq!(clock.date_string(&first), "Sunday, January 05, 0999");
}

#[test]
fn two_digit_formatting_pads_small_numbers() {
    assert_eq!(format_two_digits(7), "07");
    assert_eq!(format_two_digits(42), "42");
    assert_eq!(format_two_digits(0), "00");
    assert_eq!(format_two_digits(123), "123");
}

#[test]
fn render_centers_the_block_and_pads_to_the_height() {
    let clock = ClockDisplay::new();
    let lines = clock.render(Rect::from_size(80, 24), "", &sample_time());
    assert_eq!(lines.len(), 24);
    // (24 - 10) / 2 = 7 blank centering rows, then the five glyph rows.
    for i in 0..7 {
        assert_eq!(lines[i].content, "");
    }
    let expected = clock.create_digital_time("13:05:09");
    for i in 0..5 {
        assert_eq!(lines[7 + i].content, expected[i]);
        assert_eq!(lines[7 + i].color, Some(Color::White));
    }
    // A blank, the yellow date, a blank, the gray timezone.
    assert_eq!(lines[12].content, "");
    assert_eq!(lines[13].content, "Monday, October 12, 2026");
    assert_eq!(lines[13].color, Some(Color::Yellow));
    assert_eq!(lines[14].content, "");
    assert_eq!(lines[15].content, "UTC");
    assert_eq!(lines[15].color, Some(Color::Gray));
    assert_eq!(lines[16].content, "");
}

#[test]
fn render_with_title_stacks_it_above_the_block() {
    let clock = ClockDisplay::with_config(true, false, true);
    let lines = clock.render(Rect::from_size(40, 12), "My Clock", &sample_time());
    assert_eq!(lines.len(), 12);
    // (12 - 10) / 2 = 1 pad row, the cyan title, a blank, then glyphs.
    assert_eq!(lines[0].content, "");
    assert_eq!(lines[1].content, "My Clock");
    assert_eq!(lines[1].color, Some(Color::Cyan));
    assert_eq!(lines[2].content, "");
    let expected = clock.create_digital_time("13:05:09");
    assert_eq!(lines[3].content, expected[0]);
}
