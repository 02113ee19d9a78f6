use rust_engine::timing::TimeState;

#[test]
fn tick_measures_from_the_previous_reading() {
    let mut state = TimeState::new(100);
    let t1 = state.tick(250);
    assert_eq!(t1.delta_nanos, 150);
    assert_eq!(t1.elapsed_nanos, 150);

    let t2 = state.tick(250);
    assert_eq!(t2.delta_nanos, 0);
    assert_eq!(t2.elapsed_nanos, 150);

    let t3 = state.tick(1_000);
    assert_eq!(t3.delta_nanos, 750);
    assert_eq!(t3.elapsed_nanos, 900);
}

#[test]
fn tick_tolerates_a_backwards_reading() {
    let mut state = TimeState::new(500);
    let t = state.tick(400);
    assert_eq!(t.delta_nanos, 0);
    assert_eq!(t.elapsed_nanos, 0);
    // Timekeeping continues from the newer reading.
    let t2 = state.tick(450);
    assert_eq!(t2.delta_nanos, 50);
}
