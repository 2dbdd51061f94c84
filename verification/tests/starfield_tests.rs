use terminal_screensaver::canvas::Cell;
use terminal_screensaver::starfield::Star;
use terminal_screensaver::Color;
use terminal_screensaver::KeyPress;
use terminal_screensaver::Rect;
use terminal_screensaver::ScreensaverAction;
use terminal_screensaver::StarfieldFeature;

#[test]
fn starfield_new_starts_at_the_documented_state() {
    let f = StarfieldFeature::new();
    assert!(f.stars.is_empty());
    assert_eq!(f.star_count, 100);
    assert_eq!(f.speed, 1_000);
    assert_eq!((f.area_width, f.area_height), (80, 24));
}

#[test]
fn depth_never_drops_to_the_epsilon_or_below() {
    let mut f = StarfieldFeature::new();
    f.initialize_stars();
    assert_eq!(f.stars.len(), 100);
    for _ in 0..100 {
        f.update_stars();
        for star in f.stars.iter() {
            // 100 thousandths is the respawn threshold; a star is never
            // left at or under it, let alone negative.
            assert!(star.z > 100);
            assert!(star.z <= 21_000);
            assert!(-50_000 <= star.x && star.x <= 50_000);
            assert!(-50_000 <= star.y && star.y <= 50_000);
        }
    }
}

#[test]
fn a_star_at_the_threshold_respawns_at_max_depth() {
    let mut f = StarfieldFeature::new();
    f.initialize_stars();
    // Walk until at least one star has respawned: at one cell per tick the
    // whole field cycles within 21 ticks.
    let mut saw_respawn = false;
    for _ in 0..25 {
        let before: Vec<i64> = f.stars.iter().map(|s| s.z).collect();
        f.update_stars();
        for (star, z_before) in f.stars.iter().zip(before.iter()) {
            if z_before - f.speed <= 100 {
                assert_eq!(star.z, 20_000);
                saw_respawn = true;
            } else {
                assert_eq!(star.z, z_before - f.speed);
            }
        }
    }
    assert!(saw_respawn);
}

#[test]
fn speed_keys_clamp_into_their_bounds() {
    let mut f = StarfieldFeature::new();
    for _ in 0..30 {
        assert_eq!(f.handle_input(KeyPress::Char('+')), ScreensaverAction::Continue);
    }
    assert_eq!(f.speed, 5_000);
    for _ in 0..40 {
        f.handle_input(KeyPress::Char('-'));
    }
    assert_eq!(f.speed, 100);
    assert_eq!(f.handle_input(KeyPress::Esc), ScreensaverAction::Exit);
    assert_eq!(f.handle_input(KeyPress::Enter), ScreensaverAction::NextScreen);
}

#[test]
fn star_count_toggles_between_few_and_many() {
    let mut f = StarfieldFeature::new();
    f.handle_input(KeyPress::Char('s'));
    assert_eq!(f.star_count, 25);
    assert_eq!(f.stars.len(), 25);
    f.handle_input(KeyPress::Char('S'));
    assert_eq!(f.star_count, 150);
    assert_eq!(f.stars.len(), 150);
}

#[test]
fn render_fills_the_grid_and_the_hint_row() {
    let mut f = StarfieldFeature::new();
    let grid = f.render(Rect::from_size(80, 24));
    assert_eq!(grid.len(), 24);
    for row in grid.iter() {
        assert_eq!(row.len(), 80);
    }
    // The bottom row shows the centered gray hint.
    let hint = "Press ESC to exit | +/- for speed";
    let padding = (80 - hint.len()) / 2;
    let expected: Vec<char> = format!("{}{}", " ".repeat(padding), hint).chars().collect();
    for (x, cell) in grid[23].iter().enumerate() {
        assert_eq!(cell.color, Color::Gray);
        let want = if x < expected.len() { expected[x] } else { ' ' };
        assert_eq!(cell.ch, want);
    }
    // Gaps elsewhere are black spaces; stars carry their own glyphs.
    let star_glyphs = ['*', '·', '°', '+', '×'];
    for row in grid[..23].iter() {
        for cell in row.iter() {
            if cell.color == Color::Black {
                assert_eq!(cell.ch, ' ');
            } else {
                assert!(star_glyphs.contains(&cell.ch));
            }
        }
    }
}

#[test]
fn projection_divides_by_the_depth() {
    // One star at (5.0, 0.0, 10.0) cells, speed 0.1: after the tick the
    // depth is 9.9, and the perspective division puts it at
    // floor(40 * (5.0 + 9.9) / (2 * 9.9)) = 30, floor(10 * 9.9 / 19.8) = 5.
    let mut f = StarfieldFeature {
        stars: vec![Star { x: 5_000, y: 0, z: 10_000, glyph: '*', color: Color::White }],
        star_count: 1,
        speed: 100,
        area_width: 40,
        area_height: 10,
        seed: 1,
    };
    let grid = f.render(Rect::from_size(40, 10));
    assert_eq!(f.stars[0].z, 9_900);
    assert_eq!(grid[5][30], Cell { ch: '*', color: Color::White });
    assert_eq!(grid[5][29], Cell { ch: ' ', color: Color::Black });
}

#[test]
fn render_is_deterministic_from_the_seed() {
    let mut a = StarfieldFeature::new();
    let mut b = StarfieldFeature::new();
    let area = Rect::from_size(40, 12);
    let ga: Vec<Vec<Cell>> = a.render(area);
    let gb: Vec<Vec<Cell>> = b.render(area);
    assert_eq!(ga, gb);
}

#[test]
fn resize_regenerates_for_the_new_size() {
    let mut f = StarfieldFeature::new();
    f.resize(Rect::from_size(100, 30));
    assert_eq!((f.area_width, f.area_height), (100, 30));
    assert_eq!(f.stars.len(), 100);
}
