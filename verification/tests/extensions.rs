use cloudevents::Extensions;

#[test]
fn new_extensions_are_empty() {
    let e = Extensions::new();
    assert!(e.is_empty());
    assert_eq!(e.count(), 0);
    assert_eq!(e.get("a"), None);
    assert!(!e.contains_key("a"));
}

#[test]
fn insert_sets_and_replaces() {
    let mut e = Extensions::new();
    e.insert("a".to_string(), "1".to_string());
    e.insert("b".to_string(), "2".to_string());
    e.insert("a".to_string(), "3".to_string());
    assert!(!e.is_empty());
    assert_eq!(e.count(), 2);
    assert_eq!(e.get("a"), Some(&"3".to_string()));
    assert_eq!(e.get("b"), Some(&"2".to_string()));
    assert_eq!(e.get("A"), None);
    assert!(e.contains_key("b"));
    let (name, value) = e.entry(0);
    assert_eq!((name.as_str(), value.as_str()), ("a", "3"));
    let (name, value) = e.entry(1);
    assert_eq!((name.as_str(), value.as_str()), ("b", "2"));
}

#[test]
fn equality_ignores_the_order() {
    let mut a = Extensions::new();
    a.insert("x".to_string(), "1".to_string());
    a.insert("y".to_string(), "2".to_string());
    let mut b = Extensions::new();
    b.insert("y".to_string(), "2".to_string());
    b.insert("x".to_string(), "1".to_string());
    assert_eq!(a, b);
    assert!(a.is_within(&b));
    b.insert("z".to_string(), "3".to_string());
    assert_ne!(a, b);
    assert!(a.is_within(&b));
    assert!(!b.is_within(&a));
    a.insert("z".to_string(), "4".to_string());
    assert_ne!(a, b);
    assert_eq!(Extensions::new(), Extensions::new());
}

#[test]
fn clone_is_equal_and_independent() {
    let mut a = Extensions::new();
    a.insert("x".to_string(), "1".to_string());
    let mut b = a.clone();
    assert_eq!(a, b);
    b.insert("x".to_string(), "2".to_string());
    assert_eq!(a.get("x"), Some(&"1".to_string()));
}
