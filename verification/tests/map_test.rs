use agent_node::map::TextMap;

#[test]
fn insert_get_remove() {
    let mut m: TextMap<u32> = TextMap::new();
    assert!(m.is_empty());
    assert_eq!(m.insert("a".to_string(), 1), None);
    assert_eq!(m.insert("b".to_string(), 2), None);
    assert_eq!(m.insert("a".to_string(), 3), Some(1));
    assert_eq!(m.len(), 2);
    assert_eq!(m.get("a"), Some(&3));
    assert!(m.contains_key("b"));
    assert_eq!(m.remove("b"), Some(2));
    assert_eq!(m.remove("b"), None);
    assert_eq!(m.get("b"), None);
    assert_eq!(m.len(), 1);
}

#[test]
fn keys_keep_first_insertion_order() {
    let mut m: TextMap<u32> = TextMap::new();
    m.insert("z".to_string(), 1);
    m.insert("y".to_string(), 2);
    m.insert("z".to_string(), 3);
    let keys: Vec<&str> = m.entries().iter().map(|(k, _)| k.as_str()).collect();
    assert_eq!(keys, vec!["z", "y"]);
    assert_eq!(m.values(), vec![&3, &2]);
}

#[test]
fn overlay_prefers_the_other_map() {
    let mut a: TextMap<String> = TextMap::new();
    a.insert("k".to_string(), "a".to_string());
    a.insert("only_a".to_string(), "1".to_string());
    let mut b: TextMap<String> = TextMap::new();
    b.insert("k".to_string(), "b".to_string());
    b.insert("only_b".to_string(), "2".to_string());
    a.overlay(&b);
    assert_eq!(a.get("k").unwrap(), "b");
    assert_eq!(a.get("only_a").unwrap(), "1");
    assert_eq!(a.get("only_b").unwrap(), "2");
    assert_eq!(a.len(), 3);
}
