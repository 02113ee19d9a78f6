use rust_engine::app::App;
use rust_engine::registry::DiContainer;
use rust_engine::schedule::{Priority, Stage, System};
use rust_engine::timing::DEFAULT_FIXED_INTERVAL_NANOS;
use rust_engine::world::EntityStore;

#[derive(Debug, Clone, Copy, PartialEq, Eq)]
enum TestSystem {
    CountFixedStep,
}

struct FixedStepCount(u64);

impl System for TestSystem {
    fn run(&self, di: &mut DiContainer, _world: &mut EntityStore) {
        match self {
            TestSystem::CountFixedStep => {
                if let Some(c) = di.get_mut::<FixedStepCount>() {
                    c.0 += 1;
                }
            }
        }
    }
}

fn counting_app() -> App<TestSystem> {
    let mut app: App<TestSystem> = App::new();
    app.get_di_container().insert(FixedStepCount(0));
    app.add_system(Stage::FixedUpdate, Priority::Normal.index(), TestSystem::CountFixedStep);
    app
}

fn count(app: &mut App<TestSystem>) -> u64 {
    app.get_di_container().get::<FixedStepCount>().unwrap().0
}

#[test]
fn accumulator_determinism() {
    // Interval one sixtieth of a second; frame deltas of one sixtieth, one
    // sixtieth, and one thirtieth of a second (all far below the clamp
    // ceiling). Total fixed steps must be the floor of the summed deltas
    // over the interval, the final accumulator the remainder.
    let interval = DEFAULT_FIXED_INTERVAL_NANOS;
    assert_eq!(interval, 16_666_667);
    let deltas = [interval, interval, 2 * interval];

    let mut app = counting_app();
    let mut steps_reported = 0u64;
    for d in deltas {
        steps_reported += app.fixed_update_dispatch(d);
    }

    // sum(deltas) == 4 * interval exactly
    assert_eq!(steps_reported, 4);
    assert_eq!(count(&mut app), 4);
    assert_eq!(app.accumulator_nanos(), 0);
}

#[test]
fn accumulator_carries_the_remainder() {
    let interval = DEFAULT_FIXED_INTERVAL_NANOS;
    let mut app = counting_app();

    // Half an interval: no step yet, the half is carried.
    let s1 = app.fixed_update_dispatch(interval / 2);
    assert_eq!(s1, 0);
    assert_eq!(app.accumulator_nanos(), interval / 2);

    // Another whole interval: one step, the carried half remains.
    let s2 = app.fixed_update_dispatch(interval);
    assert_eq!(s2, 1);
    assert_eq!(app.accumulator_nanos(), interval / 2);
    assert_eq!(count(&mut app), 1);
}

#[test]
fn frame_delta_is_clamped() {
    // A ten-second hiccup: only a quarter second is charged, so the number
    // of catch-up steps is bounded whatever the pause was.
    let mut app = counting_app();
    let steps = app.fixed_update_dispatch(10_000_000_000);
    assert_eq!(steps, 250_000_000 / DEFAULT_FIXED_INTERVAL_NANOS);
    assert_eq!(steps, 14);
    assert_eq!(
        app.accumulator_nanos(),
        250_000_000 - 14 * DEFAULT_FIXED_INTERVAL_NANOS
    );
}

#[test]
fn set_fixed_dt_reconfigures_the_interval() {
    let mut app = counting_app();
    app.set_fixed_dt(1_000_000); // one millisecond
    assert_eq!(app.fixed_interval_nanos(), 1_000_000);
    let steps = app.fixed_update_dispatch(10_500_000);
    assert_eq!(steps, 10);
    assert_eq!(app.accumulator_nanos(), 500_000);
    assert_eq!(count(&mut app), 10);
}
