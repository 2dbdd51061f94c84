use terminal_screensaver::Color;
use terminal_screensaver::MatrixColumn;
use terminal_screensaver::MatrixRain;
use terminal_screensaver::Rect;

fn glyphs(n: usize) -> Vec<char> {
    std::iter::repeat('ア').take(n).collect()
}

#[test]
fn new_spaces_columns_every_two_cells() {
    let rain = MatrixRain::new(10, 20);
    assert_eq!(rain.columns.len(), 5);
    for (i, column) in rain.columns.iter().enumerate() {
        assert_eq!(column.x as usize, 2 * i);
        assert_eq!(column.y, 0);
        assert!(1 <= column.speed && column.speed <= 3);
        assert!(5 <= column.length && column.length <= 15);
        assert_eq!(column.characters.len(), 15);
    }
    // An odd width still covers the last cell: ceil(11 / 2) = 6 columns.
    assert_eq!(MatrixRain::new(11, 20).columns.len(), 6);
    assert_eq!(MatrixRain::new(0, 20).columns.len(), 0);
}

#[test]
fn head_resets_on_the_update_that_passes_the_bottom() {
    // 18 + 3 = 21 > 15 + 5: this very update resets the head to the top.
    let mut column = MatrixColumn { x: 0, y: 18, speed: 3, length: 5, characters: glyphs(15) };
    column.update(15);
    assert_eq!(column.y, 0);
    assert!(1 <= column.speed && column.speed <= 3);
    assert!(5 <= column.length && column.length <= 15);
    assert_eq!(column.characters.len(), 15);
    // The tail of the trail is kept on a reset; only the first three glyphs
    // are redrawn.
    assert!(column.characters[3..].iter().all(|&c| c == 'ア'));

    // 18 + 2 = 20 == 15 + 5: not yet past, the head just falls.
    let mut falling = MatrixColumn { x: 0, y: 18, speed: 2, length: 5, characters: glyphs(15) };
    falling.update(15);
    assert_eq!(falling.y, 20);
    assert_eq!(falling.speed, 2);
    assert_eq!(falling.length, 5);
}

#[test]
fn update_regenerates_the_field_when_the_width_changes() {
    let mut rain = MatrixRain::new(10, 20);
    rain.update(16, 20);
    assert_eq!(rain.columns.len(), 8);
    for (i, column) in rain.columns.iter().enumerate() {
        assert_eq!(column.x as usize, 2 * i);
    }
}

#[test]
fn render_paints_the_trail_down_from_the_head() {
    let mut chars = glyphs(15);
    chars[0] = 'ヌ';
    chars[1] = 'ネ';
    let rain = MatrixRain {
        columns: vec![MatrixColumn { x: 2, y: 1, speed: 1, length: 10, characters: chars }],
    };
    let lines = rain.render(Rect::from_size(5, 4));
    assert_eq!(lines.len(), 4);
    // Head at row 1, offset 1 at row 0; rows 2 and 3 untouched.
    assert_eq!(lines[1].content, "  ヌ  ");
    assert_eq!(lines[1].color, Some(Color::White));
    assert_eq!(lines[0].content, "  ネ  ");
    assert_eq!(lines[0].color, Some(Color::Rgb(0, 255, 0)));
    assert_eq!(lines[2].content, "     ");
    assert_eq!(lines[2].color, None);
    assert_eq!(lines[3].content, "     ");
}

#[test]
fn render_skips_columns_right_of_the_area() {
    let rain = MatrixRain {
        columns: vec![MatrixColumn { x: 9, y: 0, speed: 1, length: 5, characters: glyphs(15) }],
    };
    let lines = rain.render(Rect::from_size(3, 2));
    assert_eq!(lines.len(), 2);
    assert_eq!(lines[0].content, "   ");
    assert_eq!(lines[1].content, "   ");
}

#[test]
fn trail_colors_fade_with_the_offset() {
    // length 10: offset 0 is the white head, 1..=2 bright (10 i < 30),
    // 3..=6 medium (10 i < 70), 7..=9 dark.
    let column = MatrixColumn { x: 0, y: 9, speed: 1, length: 10, characters: glyphs(15) };
    let rain = MatrixRain { columns: vec![column] };
    let lines = rain.render(Rect::from_size(1, 10));
    assert_eq!(lines[9].color, Some(Color::White));
    assert_eq!(lines[8].color, Some(Color::Rgb(0, 255, 0)));
    assert_eq!(lines[7].color, Some(Color::Rgb(0, 255, 0)));
    assert_eq!(lines[6].color, Some(Color::Rgb(0, 180, 0)));
    assert_eq!(lines[3].color, Some(Color::Rgb(0, 180, 0)));
    assert_eq!(lines[2].color, Some(Color::Rgb(0, 100, 0)));
    assert_eq!(lines[0].color, Some(Color::Rgb(0, 100, 0)));
}
