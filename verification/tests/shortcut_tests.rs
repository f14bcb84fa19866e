use hyprwhspr_rs::{Config, ConfigManager};

fn with_shortcuts(legacy: &str, press: Option<&str>, hold: Option<&str>) -> Config {
    let mut config = Config::default();
    config.primary_shortcut = legacy.to_string();
    config.shortcuts.press = press.map(|s| s.to_string());
    config.shortcuts.hold = hold.map(|s| s.to_string());
    config
}

#[test]
fn sanitize_trims_and_drops_blank_shortcuts() {
    assert_eq!(Config::sanitize_shortcut("  CTRL+D "), Some("CTRL+D".to_string()));
    assert_eq!(Config::sanitize_shortcut("CTRL+D"), Some("CTRL+D".to_string()));
    assert_eq!(Config::sanitize_shortcut("   "), None);
    assert_eq!(Config::sanitize_shortcut(""), None);
    assert_eq!(Config::sanitize_shortcut("\u{a0}\t"), None);
}

#[test]
fn default_press_shortcut_is_the_compiled_in_chord() {
    let config = Config::default();
    assert_eq!(config.press_shortcut(), Some("SUPER+ALT+R"));
    assert_eq!(config.primary_shortcut, "SUPER+ALT+R");
    assert_eq!(config.hold_shortcut(), None);
}

#[test]
fn legacy_shortcut_overrides_a_different_press() {
    let mut config = with_shortcuts("  CTRL+D ", Some("SUPER+X"), Some("   "));
    config.normalize_shortcuts();
    assert_eq!(config.press_shortcut(), Some("CTRL+D"));
    assert_eq!(config.primary_shortcut, "CTRL+D");
    assert_eq!(config.hold_shortcut(), None);
}

#[test]
fn default_legacy_shortcut_discards_a_custom_press() {
    let mut config = with_shortcuts("SUPER+ALT+R", Some("CTRL+SHIFT+V"), None);
    config.normalize_shortcuts();
    assert_eq!(config.press_shortcut(), Some("SUPER+ALT+R"));
    assert_eq!(config.primary_shortcut, "SUPER+ALT+R");
}

#[test]
fn press_is_kept_where_the_legacy_shortcut_is_blank() {
    let mut config = with_shortcuts(" \t", Some(" SUPER+X "), Some(" ALT+H"));
    config.normalize_shortcuts();
    assert_eq!(config.press_shortcut(), Some("SUPER+X"));
    assert_eq!(config.primary_shortcut, "SUPER+X");
    assert_eq!(config.hold_shortcut(), Some("ALT+H"));
}

#[test]
fn legacy_shortcut_fills_an_absent_press() {
    let mut config = with_shortcuts("CTRL+D", None, None);
    config.normalize_shortcuts();
    assert_eq!(config.press_shortcut(), Some("CTRL+D"));
    assert_eq!(config.primary_shortcut, "CTRL+D");
}

#[test]
fn legacy_shortcut_fills_a_blank_press() {
    let mut config = with_shortcuts("CTRL+D", Some("  "), None);
    config.normalize_shortcuts();
    assert_eq!(config.press_shortcut(), Some("CTRL+D"));
}

#[test]
fn compiled_in_default_fills_in_where_both_are_blank() {
    let mut config = with_shortcuts("", Some("   "), None);
    config.normalize_shortcuts();
    assert_eq!(config.press_shortcut(), Some("SUPER+ALT+R"));
    assert_eq!(config.primary_shortcut, "SUPER+ALT+R");

    let mut config = with_shortcuts("  ", None, Some("ALT+H"));
    config.normalize_shortcuts();
    assert_eq!(config.press_shortcut(), Some("SUPER+ALT+R"));
    assert_eq!(config.primary_shortcut, "SUPER+ALT+R");
    assert_eq!(config.hold_shortcut(), Some("ALT+H"));
}

#[test]
fn equal_shortcuts_stay() {
    let mut config = with_shortcuts(" CTRL+D", Some("CTRL+D "), None);
    config.normalize_shortcuts();
    assert_eq!(config.press_shortcut(), Some("CTRL+D"));
    assert_eq!(config.primary_shortcut, "CTRL+D");
}

#[test]
fn normalizing_twice_changes_nothing_more() {
    let cases = [
        with_shortcuts("  CTRL+D ", Some("SUPER+X"), Some("   ")),
        with_shortcuts(" ", Some(" SUPER+X "), Some(" ALT+H ")),
        with_shortcuts("", None, None),
        with_shortcuts("\u{3000}A\u{3000}", Some("B"), Some("\u{a0}C")),
    ];
    for case in cases {
        let mut once = case.clone();
        once.normalize_shortcuts();
        let mut twice = once.clone();
        twice.normalize_shortcuts();
        assert!(twice == once);
        assert_eq!(twice.primary_shortcut, once.primary_shortcut);
        assert_eq!(twice.shortcuts.press, once.shortcuts.press);
        assert_eq!(twice.shortcuts.hold, once.shortcuts.hold);
    }
}

#[test]
fn legacy_shortcut_equals_press_after_normalization() {
    let cases = [
        with_shortcuts("  CTRL+D ", Some("SUPER+X"), None),
        with_shortcuts(" ", Some(" SUPER+X "), None),
        with_shortcuts("", None, None),
        with_shortcuts("A", None, Some("B")),
    ];
    for mut case in cases {
        case.normalize_shortcuts();
        assert_eq!(Some(case.primary_shortcut.clone()), case.shortcuts.press);
        assert!(!case.primary_shortcut.is_empty());
    }
}

#[test]
fn normalization_touches_the_shortcuts_only() {
    let mut config = with_shortcuts(" X ", Some("Y"), Some(" Z "));
    config.audio_feedback = true;
    config.transcription.whisper_cpp.threads = 9;
    config.legacy_model = Some("m".to_string());
    let mut expected = config.clone();
    expected.primary_shortcut = "X".to_string();
    expected.shortcuts.press = Some("X".to_string());
    expected.shortcuts.hold = Some("Z".to_string());
    config.normalize_shortcuts();
    assert!(config == expected);
    assert_eq!(config.legacy_model, Some("m".to_string()));
}

#[test]
fn prepared_save_is_the_normalized_copy() {
    let config = with_shortcuts(" X ", Some("Y"), None);
    let prepared = ConfigManager::prepare_save(&config);
    assert_eq!(prepared.primary_shortcut, "X");
    assert_eq!(prepared.press_shortcut(), Some("X"));
    assert_eq!(config.primary_shortcut, " X ");
}
