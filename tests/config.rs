use brb::config::{preset, Color, Config, TomlColor, DEFAULT_TEXT};

fn name_of(c: &Option<TomlColor>) -> Option<String> {
    match c {
        Some(TomlColor::Name(n)) => Some(n.clone()),
        _ => None,
    }
}

#[test]
fn from_name_ignores_case_and_keeps_lowercase() {
    assert_eq!(name_of(&TomlColor::from_name("red")), Some("red".to_string()));
    assert_eq!(name_of(&TomlColor::from_name("ReD")), Some("red".to_string()));
    assert_eq!(name_of(&TomlColor::from_name("MAGENTA")), Some("magenta".to_string()));
}

#[test]
fn from_name_refuses_unknown_names() {
    assert!(TomlColor::from_name("purple").is_none());
    assert!(TomlColor::from_name("").is_none());
    assert!(TomlColor::from_name(" red").is_none());
}

#[test]
fn presets_by_lowercase_name() {
    assert_eq!(preset("black"), Some(Color::Black));
    assert_eq!(preset("yellow"), Some(Color::Yellow));
    assert_eq!(preset("white"), Some(Color::White));
    assert_eq!(preset("Black"), None);
    assert_eq!(Config::map_color_name("blue"), Color::Blue);
    assert_eq!(Config::map_color_name("nope"), Color::White);
}

#[test]
fn defaults() {
    let c = Config::default();
    assert_eq!(c.get_text(), DEFAULT_TEXT);
    assert_eq!(c.get_text(), "Be right back");
    assert_eq!(c.get_twitch_channel(), None);
    assert!(!c.is_chat());
    assert!(!c.is_song_display());
    assert!(c.is_hide_timer());
    assert!(c.is_progress_bar());
    assert_eq!(c.get_padding(), 1);
    assert!(c.get_start_commands().is_empty());
    assert!(c.get_exit_commands().is_empty());
    assert_eq!(c.get_color(), Color::White);
    assert!(matches!(TomlColor::default(), TomlColor::Name(n) if n == "white"));
}

#[test]
fn color_names_are_read_without_regard_to_case() {
    let mut c = Config::default();
    c.set_color(TomlColor::Name("GREEN".to_string()));
    assert_eq!(c.get_color(), Color::Green);
    c.set_color(TomlColor::Name("chartreuse".to_string()));
    assert_eq!(c.get_color(), Color::White);
    c.set_color(TomlColor::Rgb { r: 10, g: 20, b: 30 });
    assert_eq!(c.get_color(), Color::Rgb(10, 20, 30));
}

#[test]
fn setters_and_getters() {
    let mut c = Config::default();
    c.set_text("Lunch\nback soon".to_string());
    c.set_twitch_channel("chan".to_string());
    c.set_chat(true);
    c.set_song_display(true);
    c.set_hide_timer(false);
    c.set_progress_bar(false);
    c.set_padding(3);
    assert_eq!(c.get_text(), "Lunch\nback soon");
    assert_eq!(c.get_twitch_channel(), Some("chan".to_string()));
    assert!(c.is_chat());
    assert!(c.is_song_display());
    assert!(!c.is_hide_timer());
    assert!(!c.is_progress_bar());
    assert_eq!(c.get_padding(), 3);
}

#[test]
fn commands_are_copied_out() {
    let c = Config::from_parts(
        TomlColor::Name("red".to_string()),
        "t".to_string(),
        None,
        false,
        false,
        true,
        true,
        1,
        vec!["a b".to_string(), "c".to_string()],
        vec!["d".to_string()],
    );
    assert_eq!(c.get_start_commands(), vec!["a b".to_string(), "c".to_string()]);
    assert_eq!(c.get_exit_commands(), vec!["d".to_string()]);
    assert_eq!(c.get_color(), Color::Red);
}
