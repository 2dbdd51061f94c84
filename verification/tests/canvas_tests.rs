use terminal_screensaver::canvas::blank;
use terminal_screensaver::canvas::fit_rows;
use terminal_screensaver::canvas::overlay_panel;
use terminal_screensaver::canvas::repeat_char;
use terminal_screensaver::canvas::write_centered;
use terminal_screensaver::center_text;
use terminal_screensaver::Color;
use terminal_screensaver::Rect;
use terminal_screensaver::SimpleRenderer;
use terminal_screensaver::TextLine;

#[test]
fn centering_pads_with_floor_half_of_the_slack() {
    // width 11, text 3: (11 - 3) / 2 = 4 leading spaces, total 7 <= 11.
    assert_eq!(center_text("abc", 11), "    abc");
    // Odd slack rounds down: (10 - 3) / 2 = 3.
    assert_eq!(center_text("abc", 10), "   abc");
    // Exact fit: no padding.
    assert_eq!(center_text("abcd", 4), "abcd");
    assert!(center_text("abc", 11).chars().count() <= 11);
}

#[test]
fn centering_leaves_wide_text_unpadded() {
    assert_eq!(center_text("hello", 3), "hello");
    assert_eq!(center_text("hello", 0), "hello");
}

#[test]
fn write_centered_touches_only_its_row() {
    let mut buffer = blank(10, 3);
    write_centered(&mut buffer, "hi", 1, 10, Some(Color::Green));
    assert_eq!(buffer[0].content, "          ");
    assert_eq!(buffer[1].content, "    hi");
    assert_eq!(buffer[1].color, Some(Color::Green));
    assert_eq!(buffer[2].content, "          ");
    assert_eq!(buffer[2].color, None);
}

#[test]
fn blank_has_requested_shape_even_when_empty() {
    let b = blank(4, 2);
    assert_eq!(b.len(), 2);
    assert_eq!(b[0].content, "    ");
    assert_eq!(blank(0, 3).len(), 3);
    assert_eq!(blank(0, 3)[0].content, "");
    assert_eq!(blank(5, 0).len(), 0);
}

#[test]
fn overlay_panel_merges_character_for_character() {
    let mut buffer = vec![TextLine::new("abc".to_string()), TextLine::new(String::new())];
    let panel = vec![
        TextLine::with_color("XY".to_string(), Color::Cyan),
        TextLine::with_color("Z".to_string(), Color::Yellow),
    ];
    overlay_panel(&mut buffer, &panel, 5, 0, 10);
    assert_eq!(buffer[0].content, "abc  XY");
    assert_eq!(buffer[0].color, Some(Color::Cyan));
    assert_eq!(buffer[1].content, "     Z");
    assert_eq!(buffer[1].color, Some(Color::Yellow));
}

#[test]
fn overlay_panel_is_omitted_past_the_right_edge() {
    let mut buffer = vec![TextLine::new("abc".to_string())];
    let panel = vec![TextLine::with_color("WIDE".to_string(), Color::Cyan)];
    // 8 + 4 > 10: the panel would cross the edge, so nothing changes.
    overlay_panel(&mut buffer, &panel, 8, 0, 10);
    assert_eq!(buffer[0].content, "abc");
    assert_eq!(buffer[0].color, None);
}

#[test]
fn fit_rows_pads_and_truncates_to_the_height() {
    let mut short = vec![TextLine::new("a".to_string())];
    fit_rows(&mut short, 3);
    assert_eq!(short.len(), 3);
    assert_eq!(short[0].content, "a");
    assert_eq!(short[2].content, "");

    let mut long = blank(2, 5);
    fit_rows(&mut long, 2);
    assert_eq!(long.len(), 2);
}

#[test]
fn clipping_respects_the_terminal_size() {
    let renderer = SimpleRenderer::new(5, 2);
    let lines = vec![
        TextLine::new("0123456789".to_string()),
        TextLine::with_color("ab".to_string(), Color::Red),
        TextLine::new("dropped".to_string()),
    ];
    let clipped = renderer.clip_lines(&lines);
    assert_eq!(clipped.len(), 2);
    assert_eq!(clipped[0].content, "01234");
    assert_eq!(clipped[1].content, "ab");
    assert_eq!(clipped[1].color, Some(Color::Red));
}

#[test]
fn renderer_tracks_size_updates() {
    let mut renderer = SimpleRenderer::new(80, 24);
    assert_eq!(renderer.get_size(), (80, 24));
    renderer.update_size(120, 40);
    assert_eq!(renderer.get_size(), (120, 40));
}

#[test]
fn rect_constructors_fill_every_field() {
    let r = Rect::new(1, 2, 3, 4);
    assert_eq!((r.x, r.y, r.width, r.height), (1, 2, 3, 4));
    let s = Rect::from_size(7, 9);
    assert_eq!((s.x, s.y, s.width, s.height), (0, 0, 7, 9));
}

#[test]
fn repeat_char_builds_runs() {
    assert_eq!(repeat_char('-', 4), "----");
    assert_eq!(repeat_char('x', 0), "");
}
