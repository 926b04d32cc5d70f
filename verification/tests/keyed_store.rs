use clay_core::provider::keyed::KeyedStore;

#[test]
fn keyed_store_insert_get_remove() {
    let mut s: KeyedStore<u64> = KeyedStore::new();
    assert_eq!(s.len(), 0);
    assert!(!s.contains_key("a"));
    assert_eq!(s.insert("a", 1), None);
    assert_eq!(s.insert("b", 2), None);
    assert_eq!(s.len(), 2);
    assert_eq!(s.get("a"), Some(&1));
    assert_eq!(s.get("b"), Some(&2));
    assert_eq!(s.get("c"), None);
    assert_eq!(s.insert("a", 3), Some(1));
    assert_eq!(s.len(), 2);
    assert_eq!(s.get("a"), Some(&3));
    assert_eq!(s.remove("a"), Some(3));
    assert_eq!(s.remove("a"), None);
    assert!(!s.contains_key("a"));
    assert!(s.contains_key("b"));
    assert_eq!(s.len(), 1);
}

#[test]
fn keyed_store_tells_keys_apart_by_content() {
    let mut s: KeyedStore<String> = KeyedStore::new();
    s.insert("ab", "x".to_string());
    s.insert("a", "y".to_string());
    s.insert("", "z".to_string());
    assert_eq!(s.get("ab"), Some(&"x".to_string()));
    assert_eq!(s.get("a"), Some(&"y".to_string()));
    assert_eq!(s.get(""), Some(&"z".to_string()));
    assert_eq!(s.get("b"), None);
    let owned = String::from("a");
    assert!(s.contains_key(owned.as_str()));
}
