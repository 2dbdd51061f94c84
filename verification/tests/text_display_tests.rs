use terminal_screensaver::text_display::create_text_display;
use terminal_screensaver::text_display::create_auto_config;
use terminal_screensaver::text_display::should_auto_enhance;
use terminal_screensaver::welcome::WelcomeProvider;
use terminal_screensaver::welcome::WelcomeStyle;
use terminal_screensaver::ActionConfig;
use terminal_screensaver::Color;

fn one_action() -> Vec<ActionConfig> {
    vec![ActionConfig {
        key: "a".to_string(),
        description: "Foo".to_string(),
        command: "echo foo".to_string(),
    }]
}

#[test]
fn help_panel_is_a_bordered_box_at_the_right_edge() {
    // Commands: "ESC - Exit screensaver", "A - Foo", "ENTER - Show action
    // menu" (longest: 24): the panel is 28 wide, 5 = commands + 2 tall,
    // anchored so its right border sits one column short of the right edge.
    let lines = create_text_display("Hi", &one_action(), 40, 10, true);
    assert_eq!(lines.len(), 10);
    let help_x = 40 - 28 - 1;
    for row in 0..5 {
        let chars: Vec<char> = lines[row].content.chars().collect();
        // The box ends at column width - 2 (its right edge is flush with
        // column width - 1, counting columns from one).
        assert_eq!(chars.len(), 39);
        assert_eq!(chars[..help_x].iter().collect::<String>(), " ".repeat(help_x));
    }
    let top: Vec<char> = lines[0].content.chars().collect();
    assert_eq!(top[help_x], '┌');
    assert_eq!(top[38], '┐');
    assert!(top[help_x + 1..38].iter().all(|&c| c == '─'));
    assert_eq!(lines[0].color, Some(Color::Cyan));
    let boxed = |cmd: &str| format!("│ {}{}│", cmd, " ".repeat(28 - cmd.len() - 3));
    let first_cmd: Vec<char> = lines[1].content.chars().collect();
    assert_eq!(
        first_cmd[help_x..].iter().collect::<String>(),
        boxed("ESC - Exit screensaver")
    );
    assert_eq!(lines[1].color, Some(Color::Yellow));
    assert_eq!(
        lines[2].content.chars().skip(help_x).collect::<String>(),
        boxed("A - Foo")
    );
    assert_eq!(
        lines[3].content.chars().skip(help_x).collect::<String>(),
        boxed("ENTER - Show action menu")
    );
    let bottom: Vec<char> = lines[4].content.chars().collect();
    assert_eq!(bottom[help_x], '└');
    assert_eq!(bottom[38], '┘');
    assert_eq!(lines[4].color, Some(Color::Cyan));
    // Rows past the box are untouched by it.
    assert_eq!(lines[6].content, "");
}

#[test]
fn single_line_text_is_centered_on_the_middle_row() {
    let lines = create_text_display("Hello", &Vec::new(), 20, 5, false);
    assert_eq!(lines.len(), 5);
    assert_eq!(lines[2].content, format!("{}Hello", " ".repeat(7)));
    assert_eq!(lines[2].color, Some(Color::Green));
    assert_eq!(lines[0].content, "");
    assert_eq!(lines[4].content, "");
}

#[test]
fn narrow_areas_drop_the_help_panel() {
    // The smallest command list is 22 + 4 = 26 wide; 20 columns cannot hold
    // it plus two, so no panel appears and the text has the full width.
    let lines = create_text_display("Hello", &Vec::new(), 20, 5, true);
    assert_eq!(lines[2].content, format!("{}Hello", " ".repeat(7)));
    assert!(lines.iter().all(|l| !l.content.contains('┌')));
}

#[test]
fn text_sharing_a_row_with_the_panel_is_merged_under_it() {
    // Height 1: the middle row 0 is also the panel's top border row.
    let lines = create_text_display("Hi", &Vec::new(), 60, 1, true);
    assert_eq!(lines.len(), 1);
    let help_x = 60 - 26 - 1;
    // The text centers in help_x - 2 = 31 columns: 14 spaces, "Hi", then
    // spaces up to the border, then the box's top edge.
    let chars: Vec<char> = lines[0].content.chars().collect();
    assert_eq!(chars[14], 'H');
    assert_eq!(chars[15], 'i');
    assert_eq!(chars[help_x], '┌');
    assert_eq!(lines[0].color, Some(Color::Cyan));
}

#[test]
fn art_blocks_are_centered_vertically() {
    let art = "#####################\n#                   #\n#####################";
    let lines = create_text_display(art, &Vec::new(), 40, 9, false);
    assert_eq!(lines.len(), 9);
    // Three art rows centered in nine: start at (9 - 3) / 2 = 3.
    assert_eq!(lines[2].content, "");
    let pad = (40 - 21) / 2;
    assert_eq!(lines[3].content, format!("{}{}", " ".repeat(pad), "#####################"));
    assert_eq!(lines[3].color, Some(Color::Green));
    assert_eq!(lines[4].content, format!("{}{}", " ".repeat(pad), "#                   #"));
    assert_eq!(lines[6].content, "");
}

#[test]
fn auto_enhancement_triggers_on_styles_and_shouted_text() {
    assert!(should_auto_enhance("anything", "enhanced"));
    assert!(should_auto_enhance("anything", "ascii"));
    assert!(should_auto_enhance("HELLO THERE", "default"));
    assert!(!should_auto_enhance("Hello", "default"));
    assert!(!should_auto_enhance("THIS SHOUTED TEXT IS TOO LONG", "default"));
}

#[test]
fn auto_config_picks_style_and_provider() {
    let c = create_auto_config("HI", "default", false);
    assert_eq!(c.text, "HI");
    assert!(matches!(c.style, WelcomeStyle::Ascii));
    assert!(matches!(c.provider, WelcomeProvider::Builtin));

    let c = create_auto_config("hello", "enhanced", true);
    assert!(matches!(c.style, WelcomeStyle::Enhanced));
    assert!(matches!(c.provider, WelcomeProvider::OhMyLogo));

    let c = create_auto_config("hello", "default", false);
    assert!(matches!(c.style, WelcomeStyle::Simple));
}
