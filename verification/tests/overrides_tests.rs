use hyprwhspr_rs::WordOverrides;

#[test]
fn a_new_table_is_empty() {
    let table = WordOverrides::new();
    assert!(table.entries().is_empty());
    assert_eq!(table.get(&"a".to_string()), None);
    assert!(WordOverrides::default().entries().is_empty());
}

#[test]
fn insert_adds_and_replaces() {
    let mut table = WordOverrides::new();
    table.insert("teh".to_string(), "the".to_string());
    table.insert("hyperland".to_string(), "Hyprland".to_string());
    assert_eq!(table.get(&"teh".to_string()), Some("the".to_string()));
    assert_eq!(table.get(&"hyperland".to_string()), Some("Hyprland".to_string()));
    assert_eq!(table.get(&"other".to_string()), None);
    table.insert("teh".to_string(), "THE".to_string());
    assert_eq!(table.get(&"teh".to_string()), Some("THE".to_string()));
    assert_eq!(table.entries().len(), 2);
}

#[test]
fn entries_list_each_word_once() {
    let mut table = WordOverrides::new();
    table.insert("a".to_string(), "1".to_string());
    table.insert("b".to_string(), "2".to_string());
    table.insert("a".to_string(), "3".to_string());
    let mut entries = table.entries();
    entries.sort();
    assert_eq!(
        entries,
        vec![("a".to_string(), "3".to_string()), ("b".to_string(), "2".to_string())]
    );
}

#[test]
fn tables_compare_as_mappings() {
    let mut one = WordOverrides::new();
    one.insert("a".to_string(), "1".to_string());
    one.insert("b".to_string(), "2".to_string());
    let mut other = WordOverrides::new();
    other.insert("b".to_string(), "2".to_string());
    other.insert("a".to_string(), "1".to_string());
    assert!(one.same_as(&other));
    assert!(other.same_as(&one));

    other.insert("a".to_string(), "x".to_string());
    assert!(!one.same_as(&other));

    let mut larger = one.clone();
    larger.insert("c".to_string(), "3".to_string());
    assert!(!one.same_as(&larger));
    assert!(!larger.same_as(&one));
    assert!(one.same_as(&one.clone()));
    assert!(WordOverrides::new().same_as(&WordOverrides::new()));
    assert!(one == one.clone());
    assert!(one != larger);
    assert!(!WordOverrides::new().same_as(&one));
}
