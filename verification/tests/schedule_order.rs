use rust_engine::registry::DiContainer;
use rust_engine::schedule::{Priority, Schedule, Stage, System};
use rust_engine::world::EntityStore;

#[derive(Debug, Clone, Copy, PartialEq, Eq)]
enum TestSystem {
    PushA,
    PushB,
    PushC,
}

impl System for TestSystem {
    fn run(&self, di: &mut DiContainer, _world: &mut EntityStore) {
        let value: i32 = match self {
            TestSystem::PushA => 10,
            TestSystem::PushB => 20,
            TestSystem::PushC => 30,
        };
        if let Some(v) = di.get_mut::<Vec<i32>>() {
            v.push(value);
        }
    }
}

#[test]
fn schedule_respects_priority_buckets() {
    let mut sched: Schedule<TestSystem> = Schedule::new();
    let mut di = DiContainer::new();
    di.insert(Vec::<i32>::new());
    let mut world = EntityStore::new();

    // Register systems in same stage but different priorities
    sched.add_system(Stage::Update, Priority::High.index(), TestSystem::PushA);
    sched.add_system(Stage::Update, Priority::Normal.index(), TestSystem::PushB);
    sched.add_system(Stage::Update, Priority::Low.index(), TestSystem::PushC);

    // Run the stage
    sched.run_stage(Stage::Update, &mut di, &mut world);

    let v = di.get_mut::<Vec<i32>>().unwrap();
    // Expect order: PushA(10), PushB(20), PushC(30)
    assert_eq!(&*v, &[10, 20, 30]);
}

#[test]
fn priority_order_wins_over_registration_order() {
    let mut sched: Schedule<TestSystem> = Schedule::new();
    let mut di = DiContainer::new();
    di.insert(Vec::<i32>::new());
    let mut world = EntityStore::new();

    // Register in reverse priority order; execution must still follow the
    // priorities, then registration order within one bucket.
    sched.add_system(Stage::Update, Priority::Low.index(), TestSystem::PushC);
    sched.add_system(Stage::Update, Priority::Normal.index(), TestSystem::PushB);
    sched.add_system(Stage::Update, Priority::High.index(), TestSystem::PushA);

    sched.run_stage(Stage::Update, &mut di, &mut world);

    let v = di.get_mut::<Vec<i32>>().unwrap();
    assert_eq!(&*v, &[10, 20, 30]);
}

#[test]
fn priority_clamping_gives_the_position_of_the_maximum() {
    // One schedule registers far above the maximum priority, the other at
    // exactly the maximum: both must execute identically.
    let mut clamped: Schedule<TestSystem> = Schedule::new();
    clamped.add_system(Stage::Update, Priority::Normal.index(), TestSystem::PushB);
    clamped.add_system(Stage::Update, rust_engine::schedule::MAX_PRIORITY + 1000, TestSystem::PushC);

    let mut exact: Schedule<TestSystem> = Schedule::new();
    exact.add_system(Stage::Update, Priority::Normal.index(), TestSystem::PushB);
    exact.add_system(Stage::Update, rust_engine::schedule::MAX_PRIORITY, TestSystem::PushC);

    let mut world = EntityStore::new();

    let mut di_clamped = DiContainer::new();
    di_clamped.insert(Vec::<i32>::new());
    clamped.run_stage(Stage::Update, &mut di_clamped, &mut world);

    let mut di_exact = DiContainer::new();
    di_exact.insert(Vec::<i32>::new());
    exact.run_stage(Stage::Update, &mut di_exact, &mut world);

    let a = di_clamped.get::<Vec<i32>>().unwrap();
    let b = di_exact.get::<Vec<i32>>().unwrap();
    assert_eq!(a, &vec![20, 30]);
    assert_eq!(a, b);
}

#[test]
fn empty_stage_is_a_no_op() {
    let sched: Schedule<TestSystem> = Schedule::new();
    let mut di = DiContainer::new();
    di.insert(Vec::<i32>::new());
    let mut world = EntityStore::new();

    sched.run_stage(Stage::Render, &mut di, &mut world);

    assert!(di.get::<Vec<i32>>().unwrap().is_empty());
}

#[test]
fn priority_levels_map_to_documented_indices() {
    assert_eq!(Priority::Highest.index(), 0);
    assert_eq!(Priority::High.index(), 1);
    assert_eq!(Priority::Normal.index(), 4);
    assert_eq!(Priority::Low.index(), 6);
    assert_eq!(Priority::Lowest.index(), rust_engine::schedule::MAX_PRIORITY);
    assert_eq!(rust_engine::schedule::MAX_PRIORITY, 8);
}
