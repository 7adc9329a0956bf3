use texture::registry::Registry;
use texture::scenario::Loader;

#[test]
fn registry_lookup() {
    let mut r: Registry<u32> = Registry::new();
    assert_eq!(r.get(&"a".to_string()), None);
    r.insert("a".to_string(), 1);
    r.insert("b".to_string(), 2);
    assert_eq!(r.get(&"a".to_string()), Some(&1));
    assert_eq!(r.get(&"b".to_string()), Some(&2));
    assert!(r.contains(&"b".to_string()));
    assert!(!r.contains(&"c".to_string()));
    assert!(!r.contains(&"".to_string()));
}

#[test]
fn registry_overwrites() {
    let mut r: Registry<u32> = Registry::new();
    r.insert("a".to_string(), 1);
    r.insert("a".to_string(), 5);
    assert_eq!(r.get(&"a".to_string()), Some(&5));
}

#[test]
fn loader_holds_pending_name() {
    let mut l = Loader::new();
    assert_eq!(l.scenario, None);
    l.set_scenario("second".to_string());
    assert_eq!(l.get_scenario(), "second".to_string());
    l.set_scenario("third".to_string());
    assert_eq!(l.take_scenario(), Some("third".to_string()));
    assert_eq!(l.scenario, None);
    assert_eq!(l.take_scenario(), None);
}
