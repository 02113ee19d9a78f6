use rust_engine::app::App;
use rust_engine::events::Events;
use rust_engine::input::{
    CursorMovedEvent, EngineElementState, EngineKey, EngineMouseButton, Input, KeyboardInputEvent,
    MouseInputEvent,
};
use rust_engine::plugin::EngineSystem;
use rust_engine::registry::DiContainer;
use rust_engine::schedule::System;
use rust_engine::world::EntityStore;
use rust_engine::InputPlugin;

#[derive(Debug, Clone, Copy, PartialEq, Eq)]
enum TestSystem {
    Engine(EngineSystem),
}

impl System for TestSystem {
    fn run(&self, di: &mut DiContainer, world: &mut EntityStore) {
        match self {
            TestSystem::Engine(s) => s.run(di, world),
        }
    }
}

impl From<EngineSystem> for TestSystem {
    fn from(s: EngineSystem) -> TestSystem {
        TestSystem::Engine(s)
    }
}

fn setup_app() -> App<TestSystem> {
    let mut app = App::new();
    app.add_plugin(&InputPlugin::new());
    app
}

fn send_keyboard_event(app: &mut App<TestSystem>, key: EngineKey, state: EngineElementState) {
    let di = app.get_di_container();
    let evts = di
        .get_mut::<Events<KeyboardInputEvent>>()
        .expect("Keyboard events should be registered");
    evts.send(KeyboardInputEvent { key, state });
}

fn send_mouse_event(
    app: &mut App<TestSystem>,
    button: EngineMouseButton,
    state: EngineElementState,
) {
    let di = app.get_di_container();
    let evts = di
        .get_mut::<Events<MouseInputEvent>>()
        .expect("Mouse events should be registered");
    evts.send(MouseInputEvent { button, state });
}

fn send_cursor_event(app: &mut App<TestSystem>, x: i64, y: i64) {
    let di = app.get_di_container();
    let evts = di
        .get_mut::<Events<CursorMovedEvent>>()
        .expect("Cursor events should be registered");
    evts.send(CursorMovedEvent { x, y });
}

#[test]
fn integration_keyboard_press() {
    let mut app = setup_app();

    send_keyboard_event(&mut app, EngineKey::A, EngineElementState::Pressed);
    app.late_update(); // make the sent event readable
    app.process_input();

    let di = app.get_di_container();
    let input = di.get_mut::<Input>().expect("Input should be present");
    assert!(input.is_key_down(EngineKey::A));
    assert!(input.is_key_pressed(EngineKey::A));
}

#[test]
fn integration_keyboard_press_then_release() {
    let mut app = setup_app();

    // Press
    send_keyboard_event(&mut app, EngineKey::A, EngineElementState::Pressed);
    app.late_update();
    app.process_input();

    // Now release
    send_keyboard_event(&mut app, EngineKey::A, EngineElementState::Released);
    app.late_update();
    app.process_input();

    let di = app.get_di_container();
    let input = di.get_mut::<Input>().expect("Input should be present");
    assert!(!input.is_key_down(EngineKey::A));
    assert!(!input.is_key_pressed(EngineKey::A));
}

#[test]
fn integration_mouse_button_press_and_cursor_move() {
    let mut app = setup_app();

    send_mouse_event(&mut app, EngineMouseButton::Left, EngineElementState::Pressed);
    send_cursor_event(&mut app, 123, 456);
    app.late_update();
    app.process_input();

    let di = app.get_di_container();
    let input = di.get_mut::<Input>().expect("Input should be present");

    assert!(input.is_mouse_button_down(EngineMouseButton::Left));
    assert!(input.is_mouse_button_pressed(EngineMouseButton::Left));
    assert_eq!(input.get_mouse_position(), (123, 456));
}

#[test]
fn integration_lost_focus_clears_state() {
    let mut app = setup_app();

    // Press some keys and buttons
    send_keyboard_event(&mut app, EngineKey::A, EngineElementState::Pressed);
    send_mouse_event(&mut app, EngineMouseButton::Right, EngineElementState::Pressed);
    app.late_update();
    app.process_input();

    // Ensure they are down
    {
        let di = app.get_di_container();
        let input = di.get_mut::<Input>().expect("Input should be present");
        assert!(input.is_key_down(EngineKey::A));
        assert!(input.is_mouse_button_down(EngineMouseButton::Right));
    }

    // Call lost_focus directly and ensure cleared
    {
        let di = app.get_di_container();
        let input = di.get_mut::<Input>().expect("Input should be present");
        input.lost_focus();
        assert!(!input.is_key_down(EngineKey::A));
        assert!(!input.is_mouse_button_down(EngineMouseButton::Right));
    }
}
