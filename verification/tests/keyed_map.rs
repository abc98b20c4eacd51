use codex_mcp::keyed_map::KeyedMap;

#[test]
fn insert_get_remove() {
    let mut m: KeyedMap<u32> = KeyedMap::new();
    assert_eq!(m.len(), 0);
    m.insert("b".to_string(), 2);
    m.insert("a".to_string(), 1);
    m.insert("b".to_string(), 3);
    assert_eq!(m.len(), 2);
    assert_eq!(m.get("b"), Some(&3));
    assert_eq!(m.get("c"), None);
    assert_eq!(m.remove("b"), Some(3));
    assert_eq!(m.get("b"), None);
    assert_eq!(m.remove("b"), None);
    assert_eq!(m.len(), 1);
}

#[test]
fn sorted_order_visits_keys_alphabetically() {
    let mut m: KeyedMap<()> = KeyedMap::new();
    for k in ["delta", "alpha", "charlie", "bravo"] {
        m.insert(k.to_string(), ());
    }
    let order = m.sorted_order();
    let keys: Vec<String> = order.iter().map(|&i| m.entry(i).0.clone()).collect();
    assert_eq!(keys, vec!["alpha", "bravo", "charlie", "delta"]);
    assert_eq!(m.position("charlie"), Some(2));
}
