//! Plugins: units of registration.
//!
//! A plugin is how a feature integrates with the runtime: given the frame
//! driver, its `build` installs whatever resources and systems the feature
//! needs. `build` is invoked once, synchronously, during application setup,
//! before `startup`. The runtime's own per-frame logic — folding queued
//! input events into the `Input` snapshot, flushing event channels — is
//! offered as [`EngineSystem`] values, so an application's system type can
//! embed them by implementing `From<EngineSystem>`.

use vstd::prelude::*;

use crate::app::App;
use crate::events::Events;
use crate::input::{
    CursorMovedEvent, EngineElementState, Input, KeyboardInputEvent, MouseInputEvent,
};
use crate::registry::DiContainer;
use crate::schedule::{flush_events, Priority, Stage, System};
use crate::world::EntityStore;

verus! {

/// A unit of registration: `build` installs the feature's resources and
/// systems into the driver, leaving the driver valid.
pub trait Plugin<S: System> {
    /// Performs the feature's `insert` / `add_system` / event registration
    /// calls; invoked once, during setup, before `startup`.
    fn build(&self, app: &mut App<S>)
        requires
            old(app).inv(),
        ensures
            final(app).inv(),
    ;
}

/// The runtime's own systems. An application whose system type implements
/// `From<EngineSystem>` can register them like any of its own.
#[derive(Debug, Clone, Copy, PartialEq, Eq, Structural)]
pub enum EngineSystem {
    /// Folds the queued input events into the `Input` snapshot.
    ApplyInput,
    /// Flushes the keyboard event channel.
    FlushKeyboard,
    /// Flushes the mouse-button event channel.
    FlushMouse,
    /// Flushes the cursor-move event channel.
    FlushCursor,
    /// Renders nothing.
    NullRender,
}

impl System for EngineSystem {
    fn run(&self, di: &mut DiContainer, world: &mut EntityStore) {
        match self {
            EngineSystem::ApplyInput => input_system(di, world),
            EngineSystem::FlushKeyboard => flush_events::<KeyboardInputEvent>(di, world),
            EngineSystem::FlushMouse => flush_events::<MouseInputEvent>(di, world),
            EngineSystem::FlushCursor => flush_events::<CursorMovedEvent>(di, world),
            EngineSystem::NullRender => (),
        }
    }
}

/// Folds this frame's readable input events into the `Input` resource: the
/// pressed-this-frame sets are cleared, then every queued keyboard,
/// mouse-button and cursor event is applied in send order. Without an
/// `Input` resource there is nothing to fold into and the registry is left
/// alone; a missing channel merely contributes no events.
pub fn input_system(di: &mut DiContainer, _world: &mut EntityStore)
    requires
        old(di).wf(),
    ensures
        final(di).wf(),
        final(di)@.dom() =~= old(di)@.dom(),
{
    match di.get_mut::<Input>() {
        Some(input) => {
            input.clear_frame();
        },
        None => {
            return ;
        },
    }
    let keyboard: Vec<KeyboardInputEvent> = match di.get_mut::<Events<KeyboardInputEvent>>() {
        Some(events) => events.drain(),
        None => Vec::new(),
    };
    match di.get_mut::<Input>() {
        Some(input) => {
            let n = keyboard.len();
            let mut i: usize = 0;
            while i < n
                invariant
                    n == keyboard@.len(),
                    i <= n,
                decreases n - i,
            {
                let event = keyboard[i];
                if event.state == EngineElementState::Pressed {
                    input.press_key(event.key);
                } else {
                    input.release_key(event.key);
                }
                i = i + 1;
            }
        },
        None => (),
    }
    let mouse: Vec<MouseInputEvent> = match di.get_mut::<Events<MouseInputEvent>>() {
        Some(events) => events.drain(),
        None => Vec::new(),
    };
    match di.get_mut::<Input>() {
        Some(input) => {
            let n = mouse.len();
            let mut i: usize = 0;
            while i < n
                invariant
                    n == mouse@.len(),
                    i <= n,
                decreases n - i,
            {
                let event = mouse[i];
                if event.state == EngineElementState::Pressed {
                    input.press_mouse_button(event.button);
                } else {
                    input.release_mouse_button(event.button);
                }
                i = i + 1;
            }
        },
        None => (),
    }
    let cursor: Vec<CursorMovedEvent> = match di.get_mut::<Events<CursorMovedEvent>>() {
        Some(events) => events.drain(),
        None => Vec::new(),
    };
    match di.get_mut::<Input>() {
        Some(input) => {
            let n = cursor.len();
            let mut i: usize = 0;
            while i < n
                invariant
                    n == cursor@.len(),
                    i <= n,
                decreases n - i,
            {
                let event = cursor[i];
                input.set_mouse_position(event.x, event.y);
                i = i + 1;
            }
        },
        None => (),
    }
}

/// Installs input handling: an empty `Input` snapshot, one event channel per
/// raw input event type, the system folding the channels into the snapshot
/// at `ProcessInput`, and one flush per channel at `LateUpdate`.
pub struct InputPlugin;

impl InputPlugin {
    /// The input plugin.
    pub fn new() -> InputPlugin {
        InputPlugin {  }
    }
}

impl<S: System + From<EngineSystem>> Plugin<S> for InputPlugin {
    fn build(&self, app: &mut App<S>) {
        let di = app.get_di_container();
        di.insert(Input::new());
        di.insert(Events::<KeyboardInputEvent>::new());
        di.insert(Events::<MouseInputEvent>::new());
        di.insert(Events::<CursorMovedEvent>::new());
        app.add_system(
            Stage::ProcessInput,
            Priority::Normal.index(),
            S::from(EngineSystem::ApplyInput),
        );
        app.add_system(
            Stage::LateUpdate,
            Priority::Normal.index(),
            S::from(EngineSystem::FlushKeyboard),
        );
        app.add_system(
            Stage::LateUpdate,
            Priority::Normal.index(),
            S::from(EngineSystem::FlushMouse),
        );
        app.add_system(
            Stage::LateUpdate,
            Priority::Normal.index(),
            S::from(EngineSystem::FlushCursor),
        );
    }
}

/// A renderer that draws nothing: registers one no-op system into the
/// `Render` stage, for applications without a rendering backend.
pub struct NullRenderer;

impl NullRenderer {
    /// The renderer that draws nothing.
    pub fn new() -> NullRenderer {
        NullRenderer {  }
    }
}

impl<S: System + From<EngineSystem>> Plugin<S> for NullRenderer {
    fn build(&self, app: &mut App<S>) {
        app.add_system(
            Stage::Render,
            Priority::Normal.index(),
            S::from(EngineSystem::NullRender),
        );
    }
}

} // verus!
