use hyprwhspr_rs::paths::{expand_tilde, join_path};
use hyprwhspr_rs::PathSet;
use std::path::Path;

#[test]
fn join_puts_one_separator_between() {
    assert_eq!(join_path("/usr/share", "models"), "/usr/share/models");
    assert_eq!(join_path("/usr/share/", "models"), "/usr/share/models");
    assert_eq!(join_path(".", "ggml-base.bin"), "./ggml-base.bin");
    assert_eq!(join_path("a", "b/c"), "a/b/c");
}

#[test]
fn join_lets_an_absolute_name_stand_alone() {
    assert_eq!(join_path("/etc", "/opt/vad.bin"), "/opt/vad.bin");
    assert_eq!(join_path("", "/opt/vad.bin"), "/opt/vad.bin");
}

#[test]
fn join_with_an_empty_part() {
    assert_eq!(join_path("", "models"), "models");
    assert_eq!(join_path("/", "models"), "/models");
    assert_eq!(join_path("/a", ""), "/a/");
    assert_eq!(join_path("", ""), "");
}

#[test]
fn join_agrees_with_the_standard_library() {
    let dirs = ["", "/", ".", "a", "a/", "/a/b", "/a/b/", "~", "répertoire"];
    let names = ["", "x", "x/y", "/x", "/", "ggml-base.en.bin", "..", "ñ"];
    for dir in dirs {
        for name in names {
            let expected = Path::new(dir).join(name);
            assert_eq!(join_path(dir, name), expected.to_str().unwrap(), "{:?} {:?}", dir, name);
        }
    }
}

#[test]
fn tilde_expands_to_the_home_directory() {
    assert_eq!(expand_tilde("~/models", Some("/home/u")), "/home/u/models");
    assert_eq!(expand_tilde("~", Some("/home/u")), "/home/u");
    assert_eq!(expand_tilde("~/", Some("/home/u")), "/home/u/");
    assert_eq!(expand_tilde("~/a/b", Some("/home/u/")), "/home/u/a/b");
}

#[test]
fn other_paths_are_left_as_they_are() {
    assert_eq!(expand_tilde("/opt/models", Some("/home/u")), "/opt/models");
    assert_eq!(expand_tilde("models/~", Some("/home/u")), "models/~");
    assert_eq!(expand_tilde("~user/models", Some("/home/u")), "~user/models");
    assert_eq!(expand_tilde("", Some("/home/u")), "");
}

#[test]
fn without_a_home_directory_nothing_expands() {
    assert_eq!(expand_tilde("~/models", None), "~/models");
    assert_eq!(expand_tilde("~", None), "~");
}

#[test]
fn a_path_set_holds_what_was_inserted() {
    let mut present = PathSet::new();
    assert!(!present.contains(&"/a".to_string()));
    present.insert("/a".to_string());
    present.insert("/b".to_string());
    present.insert("/a".to_string());
    assert!(present.contains(&"/a".to_string()));
    assert!(present.contains(&"/b".to_string()));
    assert!(!present.contains(&"/c".to_string()));
    assert!(!present.contains(&"/a/".to_string()));
}
