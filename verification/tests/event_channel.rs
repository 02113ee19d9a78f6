use rust_engine::events::Events;

#[test]
fn event_double_buffer_lag() {
    let mut evts: Events<i32> = Events::new();

    evts.send(1);
    evts.send(2);

    // Draining immediately yields nothing: sends are invisible this frame.
    let before: Vec<i32> = evts.drain();
    assert_eq!(before, Vec::<i32>::new());

    // After one update the sent events are readable, in send order.
    evts.update();
    let after: Vec<i32> = evts.drain();
    assert_eq!(after, vec![1, 2]);

    // A second drain without another update yields nothing again.
    let again: Vec<i32> = evts.drain();
    assert_eq!(again, Vec::<i32>::new());
}

#[test]
fn extend_appends_in_send_order() {
    let mut evts: Events<i32> = Events::new();
    evts.send(1);
    evts.extend(vec![2, 3]);
    evts.send(4);
    evts.update();
    assert_eq!(evts.len(), 4);
    assert!(!evts.is_empty());
    assert_eq!(evts.drain(), vec![1, 2, 3, 4]);
}

#[test]
fn update_drops_what_was_never_drained() {
    let mut evts: Events<i32> = Events::new();
    evts.send(1);
    evts.update();
    // 1 is readable now, but nobody drains it.
    evts.send(2);
    evts.update();
    // The second update reclaimed the buffer holding 1.
    assert_eq!(evts.drain(), vec![2]);
}
