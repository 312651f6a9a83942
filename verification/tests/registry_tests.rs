use contact_broker::registry::{ClientRecord, ConnectionState, Registry, RegistryError};
use contact_broker::time::Timestamp;

fn at(text: &str) -> Timestamp {
    Timestamp::parse(text.to_string()).unwrap()
}

#[test]
fn a_new_registry_is_empty() {
    let registry = Registry::new();
    assert_eq!(registry.len(), 0);
    assert_eq!(registry.list(), Vec::<String>::new());
    assert!(!registry.contains("root"));
    assert_eq!(registry.get("root"), None);
}

#[test]
fn try_register_inserts_once() {
    let mut registry = Registry::new();
    assert_eq!(registry.try_register("alice".to_string(), at("2024-05-01T10:00:01Z")), Ok(()));
    assert!(registry.contains("alice"));
    assert_eq!(registry.len(), 1);
    assert_eq!(
        registry.get("alice"),
        Some(&ClientRecord {
            identity: "alice".to_string(),
            state: ConnectionState::ACTIVE,
            registered_at: at("2024-05-01T10:00:01Z"),
        })
    );
    assert_eq!(
        registry.try_register("alice".to_string(), at("2024-05-01T10:00:02Z")),
        Err(RegistryError::AlreadyRegistered)
    );
    assert_eq!(registry.len(), 1);
    assert_eq!(registry.get("alice").unwrap().registered_at, at("2024-05-01T10:00:01Z"));
}

#[test]
fn unregister_removes_only_what_is_there() {
    let mut registry = Registry::new();
    assert_eq!(registry.unregister("alice"), Err(RegistryError::NotRegistered));
    registry.try_register("alice".to_string(), at("2024-05-01T10:00:01Z")).unwrap();
    registry.try_register("bob".to_string(), at("2024-05-01T10:00:02Z")).unwrap();
    assert_eq!(registry.unregister("alice"), Ok(()));
    assert!(!registry.contains("alice"));
    assert!(registry.contains("bob"));
    assert_eq!(registry.unregister("alice"), Err(RegistryError::NotRegistered));
    assert_eq!(registry.list(), vec!["bob".to_string()]);
    assert_eq!(registry.try_register("alice".to_string(), at("2024-05-01T10:00:03Z")), Ok(()));
    assert_eq!(registry.get("alice").unwrap().registered_at, at("2024-05-01T10:00:03Z"));
}

#[test]
fn list_is_ascending_whatever_the_order_of_arrival() {
    let names = ["root", "bob", "alice", "Zed", "carol", "", "al", "日本"];
    let mut forwards = Registry::new();
    for name in names {
        forwards.try_register(name.to_string(), at("2024-05-01T10:00:00Z")).unwrap();
    }
    let mut backwards = Registry::new();
    for name in names.iter().rev() {
        backwards.try_register(name.to_string(), at("2024-05-01T10:00:00Z")).unwrap();
    }
    let mut expected: Vec<String> = names.iter().map(|n| n.to_string()).collect();
    expected.sort();
    assert_eq!(forwards.list(), expected);
    assert_eq!(backwards.list(), expected);
    assert_eq!(forwards.len(), names.len());
    for name in names {
        assert!(forwards.contains(name));
        assert_eq!(forwards.get(name).unwrap().identity, name);
    }
    assert!(!forwards.contains("dave"));
}

#[test]
fn identities_are_told_apart_exactly() {
    let mut registry = Registry::new();
    registry.try_register("root".to_string(), at("2024-05-01T10:00:00Z")).unwrap();
    assert!(!registry.contains("Root"));
    assert!(!registry.contains("roo"));
    assert!(!registry.contains("root "));
    assert_eq!(registry.try_register("Root".to_string(), at("2024-05-01T10:00:00Z")), Ok(()));
    assert_eq!(registry.list(), vec!["Root".to_string(), "root".to_string()]);
}
