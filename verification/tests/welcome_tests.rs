use terminal_screensaver::welcome::WelcomeMessageConfig;
use terminal_screensaver::welcome::WelcomeMessageService;
use terminal_screensaver::welcome::WelcomeProvider;
use terminal_screensaver::welcome::WelcomeStyle;

#[test]
fn simple_style_passes_the_text_through() {
    let config = WelcomeMessageConfig {
        text: "Hello!".to_string(),
        style: WelcomeStyle::Simple,
        provider: WelcomeProvider::OhMyLogo,
    };
    assert_eq!(WelcomeMessageService::generate_message(&config).unwrap(), "Hello!");
}

#[test]
fn ascii_style_builds_block_letters() {
    let config = WelcomeMessageConfig {
        text: "AB".to_string(),
        style: WelcomeStyle::Ascii,
        provider: WelcomeProvider::Builtin,
    };
    let out = WelcomeMessageService::generate_message(&config).unwrap();
    let rows: Vec<&str> = out.split('\n').collect();
    assert_eq!(rows.len(), 5);
    assert_eq!(rows[0], "  ##    ##### ".to_string() + "  ");
    assert_eq!(rows[2], "######  ##### ".to_string() + "  ");
}

#[test]
fn enhanced_without_the_tool_falls_back_to_block_letters() {
    let config = WelcomeMessageConfig {
        text: "Hi".to_string(),
        style: WelcomeStyle::Enhanced,
        provider: WelcomeProvider::Builtin,
    };
    let expected = WelcomeMessageService::generate_builtin_ascii("Hi").unwrap();
    assert_eq!(WelcomeMessageService::generate_message(&config).unwrap(), expected);
}

#[test]
fn block_letters_keep_only_the_first_six_characters() {
    let long = WelcomeMessageService::generate_builtin_ascii("ABCDEFGH").unwrap();
    let short = WelcomeMessageService::generate_builtin_ascii("ABCDEF").unwrap();
    assert_eq!(long, short);
}

#[test]
fn empty_text_comes_back_unchanged() {
    assert_eq!(WelcomeMessageService::generate_builtin_ascii("").unwrap(), "");
}

#[test]
fn unknown_characters_are_shown_between_spaces() {
    let out = WelcomeMessageService::generate_builtin_ascii("7").unwrap();
    let rows: Vec<&str> = out.split('\n').collect();
    assert_eq!(rows[0], " 7   ");
    assert_eq!(rows[4], " 7   ");
}

#[test]
fn logo_tool_output_is_used_only_when_it_says_something() {
    let used = WelcomeMessageService::generate_oh_my_logo("Hi", Some("LOGO ART".to_string()));
    assert_eq!(used.unwrap(), "LOGO ART");

    let expected = WelcomeMessageService::generate_builtin_ascii("Hi").unwrap();
    let blank = WelcomeMessageService::generate_oh_my_logo("Hi", Some("  \n\t ".to_string()));
    assert_eq!(blank.unwrap(), expected.clone());

    let missing = WelcomeMessageService::generate_oh_my_logo("Hi", None);
    assert_eq!(missing.unwrap(), expected.clone());

    let plain = WelcomeMessageService::generate_oh_my_logo_ascii("Hi", None);
    assert_eq!(plain.unwrap(), expected);
}

#[test]
fn defaults_are_simple_and_builtin() {
    assert!(matches!(WelcomeStyle::default(), WelcomeStyle::Simple));
    assert!(matches!(WelcomeProvider::default(), WelcomeProvider::Builtin));
}
