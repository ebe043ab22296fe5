use draconis::{FieldMap, PluginField, RawPluginField};

fn raw(key: Option<&str>, value: Option<&str>) -> RawPluginField {
    RawPluginField { key: key.map(|s| s.to_string()), value: value.map(|s| s.to_string()) }
}

#[test]
fn new_field_map_is_empty() {
    let map = FieldMap::new();
    assert!(map.is_empty());
    assert_eq!(map.len(), 0);
    assert_eq!(map.get("anything"), None);
    assert!(!map.contains_key(""));
    assert!(map.entries().is_empty());
}

#[test]
fn insert_then_get() {
    let mut map = FieldMap::new();
    map.insert("temp".to_string(), "21".to_string());
    map.insert("unit".to_string(), "C".to_string());
    assert_eq!(map.len(), 2);
    assert!(!map.is_empty());
    assert_eq!(map.get("temp"), Some(&"21".to_string()));
    assert_eq!(map.get("unit"), Some(&"C".to_string()));
    assert_eq!(map.get("Temp"), None);
    assert!(map.contains_key("unit"));
    assert!(!map.contains_key("units"));
}

#[test]
fn insert_replaces_the_value_of_a_known_key() {
    let mut map = FieldMap::new();
    map.insert("a".to_string(), "1".to_string());
    map.insert("b".to_string(), "2".to_string());
    map.insert("a".to_string(), "3".to_string());
    assert_eq!(map.len(), 2);
    assert_eq!(map.get("a"), Some(&"3".to_string()));
    assert_eq!(map.get("b"), Some(&"2".to_string()));
    assert_eq!(
        map.entries(),
        &vec![
            PluginField { key: "a".to_string(), value: "3".to_string() },
            PluginField { key: "b".to_string(), value: "2".to_string() },
        ]
    );
}

#[test]
fn empty_key_is_a_key() {
    let mut map = FieldMap::new();
    map.insert(String::new(), "nothing".to_string());
    assert_eq!(map.len(), 1);
    assert_eq!(map.get(""), Some(&"nothing".to_string()));
}

#[test]
fn raw_fields_without_key_are_skipped() {
    let map = FieldMap::from_raw(&vec![
        raw(Some("city"), Some("Oslo")),
        raw(None, Some("lost")),
        raw(Some("sky"), Some("clear")),
        raw(None, None),
    ]);
    assert_eq!(map.len(), 2);
    assert_eq!(map.get("city"), Some(&"Oslo".to_string()));
    assert_eq!(map.get("sky"), Some(&"clear".to_string()));
}

#[test]
fn raw_fields_without_value_read_as_empty() {
    let map = FieldMap::from_raw(&vec![raw(Some("note"), None)]);
    assert_eq!(map.len(), 1);
    assert_eq!(map.get("note"), Some(&String::new()));
}

#[test]
fn of_two_raw_fields_with_one_key_the_later_counts() {
    let map = FieldMap::from_raw(&vec![
        raw(Some("k"), Some("first")),
        raw(Some("other"), Some("x")),
        raw(Some("k"), Some("second")),
        raw(Some("k"), None),
    ]);
    assert_eq!(map.len(), 2);
    assert_eq!(map.get("k"), Some(&String::new()));
    assert_eq!(map.get("other"), Some(&"x".to_string()));
}

#[test]
fn no_raw_fields_give_the_empty_map() {
    let map = FieldMap::from_raw(&Vec::new());
    assert!(map.is_empty());
    let only_keyless = FieldMap::from_raw(&vec![raw(None, Some("v"))]);
    assert!(only_keyless.is_empty());
}

#[test]
fn duplicate_has_the_same_entries() {
    let mut map = FieldMap::new();
    map.insert("x".to_string(), "1".to_string());
    map.insert("y".to_string(), "2".to_string());
    let mut copy = map.duplicate();
    assert_eq!(copy.entries(), map.entries());
    copy.insert("x".to_string(), "changed".to_string());
    assert_eq!(map.get("x"), Some(&"1".to_string()));
    assert_eq!(copy.get("x"), Some(&"changed".to_string()));
}
