use rust_engine::registry::DiContainer;

#[test]
fn registry_singleton_per_type() {
    let mut di = DiContainer::new();
    di.insert(7u32);
    di.insert(9u32);

    // Exactly one value of the type remains, and it is the second one.
    assert_eq!(di.len(), 1);
    assert_eq!(di.get::<u32>(), Some(&9));
}

#[test]
fn registry_absence_is_a_normal_state() {
    let di = DiContainer::new();
    assert_eq!(di.len(), 0);
    assert!(di.get::<bool>().is_none());
}

#[test]
fn registry_types_are_independent() {
    let mut di = DiContainer::new();
    di.insert(1u32);
    di.insert(String::from("hello"));
    assert_eq!(di.len(), 2);
    assert_eq!(di.get::<u32>(), Some(&1));
    assert_eq!(di.get::<String>().map(|s| s.as_str()), Some("hello"));
}

#[test]
fn registry_get_mut_rewrites_in_place() {
    let mut di = DiContainer::new();
    di.insert(10u64);
    if let Some(v) = di.get_mut::<u64>() {
        *v += 5;
    }
    assert_eq!(di.get::<u64>(), Some(&15));
}

#[test]
fn registry_remove_returns_ownership() {
    let mut di = DiContainer::new();
    di.insert(String::from("owned"));
    let taken = di.remove::<String>();
    assert_eq!(taken.as_deref(), Some("owned"));
    assert!(di.get::<String>().is_none());
    assert!(di.remove::<String>().is_none());
}

#[test]
fn registry_clear_drops_everything() {
    let mut di = DiContainer::new();
    di.insert(1u32);
    di.insert(2u64);
    di.clear();
    assert_eq!(di.len(), 0);
    assert!(di.get::<u32>().is_none());
    assert!(di.get::<u64>().is_none());
}
