use client_rs::registry::SlotRegistry;

#[test]
fn new_registry_is_empty() {
    let registry = SlotRegistry::new();
    assert!(!registry.has_mapped());
    assert_eq!(registry.device_ids(), Vec::<usize>::new());
    assert_eq!(registry.resolve(&42), None);
}

#[test]
fn insert_maps_device_to_slot() {
    let mut registry = SlotRegistry::new();
    registry.insert(42, 3);
    assert_eq!(registry.resolve(&42), Some(3));
    assert!(registry.is_occupied(3));
    assert!(!registry.is_occupied(0));
    assert!(registry.has_mapped());
    assert_eq!(registry.device_ids(), vec![42]);
}

#[test]
fn distinct_devices_occupy_distinct_slots() {
    let mut registry = SlotRegistry::new();
    registry.insert(10, 0);
    registry.insert(20, 1);
    registry.insert(30, 5);
    assert_eq!(registry.resolve(&10), Some(0));
    assert_eq!(registry.resolve(&20), Some(1));
    assert_eq!(registry.resolve(&30), Some(5));
    assert_eq!(registry.device_ids(), vec![10, 20, 30]);
}

#[test]
fn remove_frees_the_slot_and_reports_it() {
    let mut registry = SlotRegistry::new();
    registry.insert(10, 0);
    registry.insert(20, 1);
    assert_eq!(registry.remove(&10), Some(0));
    assert_eq!(registry.resolve(&10), None);
    assert!(!registry.is_occupied(0));
    assert_eq!(registry.resolve(&20), Some(1));
    assert_eq!(registry.remove(&10), None);
}

#[test]
fn clear_unmaps_everything() {
    let mut registry = SlotRegistry::new();
    registry.insert(1, 0);
    registry.insert(2, 7);
    registry.clear();
    assert!(!registry.has_mapped());
    assert_eq!(registry.resolve(&1), None);
    assert_eq!(registry.resolve(&2), None);
}
