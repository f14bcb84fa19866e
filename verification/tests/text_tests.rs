use hyprwhspr_rs::text::{char_is_space, has_prefix, has_suffix, trim};

#[test]
fn whitespace_matches_the_unicode_property_for_every_char() {
    let mut code: u32 = 0;
    while code <= 0x10FFFF {
        if let Some(c) = char::from_u32(code) {
            assert_eq!(char_is_space(c), c.is_whitespace(), "U+{:04X}", code);
        }
        code += 1;
    }
}

#[test]
fn trim_removes_blanks_at_both_ends_only() {
    assert_eq!(trim("  SUPER+ALT+R \t\n"), "SUPER+ALT+R");
    assert_eq!(trim("a b"), "a b");
    assert_eq!(trim(" a  b "), "a  b");
    assert_eq!(trim(""), "");
    assert_eq!(trim(" \t\r\n"), "");
    assert_eq!(trim("x"), "x");
}

#[test]
fn trim_knows_blanks_beyond_ascii() {
    assert_eq!(trim("\u{3000}CTRL+A\u{a0}"), "CTRL+A");
    assert_eq!(trim("\u{2003}é\u{2028}"), "é");
    assert_eq!(trim("\u{200b}x\u{200b}"), "\u{200b}x\u{200b}");
}

#[test]
fn trim_agrees_with_the_standard_library() {
    let samples = [
        "", " ", "a", " a", "a ", "  a b  ", "\t\tkey\n", "\u{85}x\u{1680}", "ß \u{205f}",
        "\u{feff}x", "  \u{202f} ", "日本語 ", " 🙂 ",
    ];
    for s in samples {
        assert_eq!(trim(s), s.trim(), "{:?}", s);
    }
}

#[test]
fn trim_twice_is_trim_once() {
    let samples = ["  a b  ", "\u{3000}", "x", " \u{a0}y\u{a0} "];
    for s in samples {
        assert_eq!(trim(trim(s)), trim(s));
    }
}

#[test]
fn suffix_and_prefix_tests() {
    assert!(has_suffix("base.en", ".en"));
    assert!(has_suffix(".en", ".en"));
    assert!(!has_suffix("en", ".en"));
    assert!(!has_suffix("base.eng", ".en"));
    assert!(has_suffix("base", ""));
    assert!(has_prefix("~/models", "~/"));
    assert!(!has_prefix("~", "~/"));
    assert!(!has_prefix("/~/", "~/"));
    assert!(has_suffix("modèle.en", ".en"));
    assert!(has_prefix("élan", "é"));
}
