use fabric::registry::Registry;

#[test]
fn registry_inserts_replaces_and_removes() {
    let mut registry: Registry<u32> = Registry::new();
    assert!(registry.is_empty());
    assert_eq!(registry.insert("a".to_string(), 1), None);
    assert_eq!(registry.insert("b".to_string(), 2), None);
    assert_eq!(registry.insert("a".to_string(), 3), Some(1));
    assert_eq!(registry.len(), 2);
    assert_eq!(registry.get("a"), Some(&3));
    assert_eq!(registry.get("b"), Some(&2));
    assert_eq!(registry.get("c"), None);
    assert_eq!(registry.position("a"), Some(0));
    assert_eq!(registry.position("b"), Some(1));
    assert!(registry.contains_key("b"));
    assert_eq!(registry.key_at(1), "b");
    assert_eq!(*registry.value_at(0), 3);
    assert_eq!(registry.replace_at(1, 9), 2);
    assert_eq!(registry.remove("a"), Some(3));
    assert_eq!(registry.remove("a"), None);
    assert_eq!(registry.position("b"), Some(0));
    assert_eq!(registry.get("b"), Some(&9));
    let (keys, values) = registry.drain();
    assert_eq!(keys, vec!["b".to_string()]);
    assert_eq!(values, vec![9]);
    assert!(registry.is_empty());
}
