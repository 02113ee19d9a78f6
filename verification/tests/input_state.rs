use rust_engine::events::Events;
use rust_engine::input::{EngineElementState, EngineKey, Input, KeyboardInputEvent};

#[test]
fn input_press_release_and_clear() {
    let mut input = Input::new();
    assert!(!input.is_key_down(EngineKey::A));
    assert!(!input.is_key_pressed(EngineKey::A));

    input.press_key(EngineKey::A);
    assert!(input.is_key_down(EngineKey::A));
    assert!(input.is_key_pressed(EngineKey::A));

    // clear_frame should clear the 'pressed' set but keep 'down'
    input.clear_frame();
    assert!(input.is_key_down(EngineKey::A));
    assert!(!input.is_key_pressed(EngineKey::A));

    // release should remove from 'down'
    input.release_key(EngineKey::A);
    assert!(!input.is_key_down(EngineKey::A));
}

#[test]
fn events_double_buffer_and_apply_to_input_like_plugin() {
    // Events queue behavior: sends are visible only after update()
    let mut evts: Events<KeyboardInputEvent> = Events::new();
    let evt = KeyboardInputEvent { key: EngineKey::A, state: EngineElementState::Pressed };

    evts.send(evt);
    // Not yet visible on the read side
    assert!(evts.is_empty());

    // Flip buffers so sent events become readable
    evts.update();
    assert_eq!(evts.len(), 1);

    // Drain and apply to an Input instance (mimic the input plugin)
    let mut input = Input::new();
    for e in evts.drain() {
        if e.state == EngineElementState::Pressed {
            input.press_key(e.key);
        } else {
            input.release_key(e.key);
        }
    }

    assert!(input.is_key_down(EngineKey::A));
    assert!(input.is_key_pressed(EngineKey::A));

    // After draining, the buffer should be empty
    assert_eq!(evts.len(), 0);
}

#[test]
fn holding_a_key_is_not_pressing_it_again() {
    let mut input = Input::new();
    input.press_key(EngineKey::W);
    input.clear_frame();
    // A repeated press while held must not count as pressed-this-frame.
    input.press_key(EngineKey::W);
    assert!(input.is_key_down(EngineKey::W));
    assert!(!input.is_key_pressed(EngineKey::W));
}

#[test]
fn mouse_position_updates() {
    let mut input = Input::new();
    assert_eq!(input.get_mouse_position(), (0, 0));
    input.set_mouse_position(-5, 17);
    assert_eq!(input.get_mouse_position(), (-5, 17));
}
