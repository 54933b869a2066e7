use ephemeral::bus::Bus;
use ephemeral::registry::{Registry, RegistryError};
use ephemeral::session::Session;

fn session(bus: &Bus, id: u128, handle: &'static str) -> Session<&'static str> {
    Session::new(id, handle, bus.subscribe())
}

fn named(bus: &Bus, id: u128, name: &str) -> Session<&'static str> {
    let mut s = session(bus, id, "handle");
    s.speak(name.to_string(), bus.subscribe());
    s
}

#[test]
fn new_registry_is_empty() {
    let registry: Registry<()> = Registry::new();
    assert_eq!(registry.len(), 0);
    assert!(!registry.contains(1));
    assert!(matches!(registry.lookup(1), Err(RegistryError::NotFound)));
    assert!(registry.snapshot_named().is_empty());
}

#[test]
fn inserted_session_is_found_under_its_id() {
    let bus = Bus::new(4);
    let mut registry = Registry::new();
    assert_eq!(registry.insert(session(&bus, 7, "seven")), Ok(()));
    assert_eq!(registry.insert(session(&bus, 9, "nine")), Ok(()));
    assert_eq!(registry.len(), 2);
    let found = registry.lookup(7).unwrap();
    assert_eq!(found.id(), 7);
    assert_eq!(*found.outbound(), "seven");
    assert_eq!(found.name(), None);
    assert_eq!(*registry.lookup(9).unwrap().outbound(), "nine");
    assert!(matches!(registry.lookup(8), Err(RegistryError::NotFound)));
}

#[test]
fn duplicate_id_is_refused_and_changes_nothing() {
    let bus = Bus::new(4);
    let mut registry = Registry::new();
    assert_eq!(registry.insert(session(&bus, 7, "first")), Ok(()));
    assert_eq!(registry.insert(session(&bus, 7, "second")), Err(RegistryError::DuplicateId));
    assert_eq!(registry.len(), 1);
    assert_eq!(*registry.lookup(7).unwrap().outbound(), "first");
}

#[test]
fn remove_is_idempotent() {
    let bus = Bus::new(4);
    let mut registry = Registry::new();
    registry.insert(session(&bus, 7, "seven")).unwrap();
    registry.insert(session(&bus, 9, "nine")).unwrap();
    let removed = registry.remove(7).unwrap();
    assert_eq!(removed.id(), 7);
    assert_eq!(*removed.outbound(), "seven");
    assert!(registry.remove(7).is_none());
    assert!(registry.remove(7).is_none());
    assert!(registry.remove(1234).is_none());
    assert_eq!(registry.len(), 1);
    assert!(matches!(registry.lookup(7), Err(RegistryError::NotFound)));
    assert!(registry.contains(9));
}

#[test]
fn snapshot_lists_each_named_session_once() {
    let bus = Bus::new(4);
    let mut registry = Registry::new();
    registry.insert(named(&bus, 1, "alice")).unwrap();
    registry.insert(session(&bus, 2, "anonymous")).unwrap();
    registry.insert(named(&bus, 3, "bob")).unwrap();
    registry.insert(named(&bus, 4, "alice")).unwrap();
    let mut names = registry.snapshot_named();
    names.sort();
    assert_eq!(names, vec!["alice".to_string(), "alice".to_string(), "bob".to_string()]);
    registry.remove(1);
    let mut names = registry.snapshot_named();
    names.sort();
    assert_eq!(names, vec!["alice".to_string(), "bob".to_string()]);
}

#[test]
fn max_id_is_a_key_like_any_other() {
    let bus = Bus::new(4);
    let mut registry = Registry::new();
    registry.insert(session(&bus, u128::MAX, "max")).unwrap();
    registry.insert(session(&bus, 0, "zero")).unwrap();
    assert_eq!(registry.lookup(u128::MAX).unwrap().id(), u128::MAX);
    assert_eq!(registry.lookup(0).unwrap().id(), 0);
}
