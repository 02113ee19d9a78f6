use rust_engine::world::EntityStore;

#[derive(Debug, Clone, Copy, PartialEq, Eq)]
struct Health(u32);

#[derive(Debug, Clone, Copy, PartialEq, Eq)]
struct Speed(i32);

#[test]
fn spawn_insert_remove_despawn() {
    let mut store = EntityStore::new();

    let e = store.spawn(Health(10));
    assert!(store.contains(e));

    assert!(store.insert(e, Speed(-3)));
    assert_eq!(store.remove::<Speed>(e), Some(Speed(-3)));
    assert_eq!(store.remove::<Speed>(e), None);

    assert!(store.despawn(e));
    let e2 = store.spawn(Health(1));
    assert!(store.contains(e2));
}
