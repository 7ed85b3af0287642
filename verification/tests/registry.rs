use spaces::registry::{PreconditionViolation, TextureRegistry};

#[test]
fn new_registry_is_empty() {
    let registry = TextureRegistry::new();
    assert_eq!(registry.len(), 0);
    assert_eq!(registry.get("tex.icon"), None);
}

#[test]
fn insert_then_get_returns_the_handle() {
    let mut registry = TextureRegistry::new();
    assert_eq!(registry.insert("tex.icon", 7), None);
    assert_eq!(registry.get("tex.icon"), Some(7));
    assert_eq!(registry.lookup("tex.icon"), Ok(7));
    assert_eq!(registry.len(), 1);
}

#[test]
fn insert_of_a_known_name_replaces_and_returns_the_old_handle() {
    let mut registry = TextureRegistry::new();
    registry.insert("tex.icon", 7);
    registry.insert("tex.other", 8);
    assert_eq!(registry.insert("tex.icon", 9), Some(7));
    assert_eq!(registry.get("tex.icon"), Some(9));
    assert_eq!(registry.get("tex.other"), Some(8));
    assert_eq!(registry.len(), 2);
}

#[test]
fn insertion_order_does_not_matter() {
    let mut first = TextureRegistry::new();
    first.insert("a", 1);
    first.insert("b", 2);
    let mut second = TextureRegistry::new();
    second.insert("b", 2);
    second.insert("a", 1);
    for name in ["a", "b", "c"] {
        assert_eq!(first.get(name), second.get(name));
    }
}

#[test]
fn lookup_of_an_unregistered_name_is_a_precondition_violation() {
    let registry = TextureRegistry::new();
    assert_eq!(
        registry.lookup("missing"),
        Err(PreconditionViolation::TextureNotRegistered { name: "missing".to_string() })
    );
}

#[test]
fn lookup_miss_is_reported_until_the_name_is_registered() {
    let mut registry = TextureRegistry::new();
    registry.insert("tex.icon", 3);
    assert!(registry.lookup("missing").is_err());
    registry.insert("missing", 4);
    assert_eq!(registry.lookup("missing"), Ok(4));
}

#[test]
fn names_are_told_apart_exactly() {
    let mut registry = TextureRegistry::new();
    registry.insert("tex.icon", 1);
    assert_eq!(registry.get("tex.ico"), None);
    assert_eq!(registry.get("tex.icon "), None);
    assert_eq!(registry.get("TEX.ICON"), None);
    assert_eq!(registry.get(""), None);
}
