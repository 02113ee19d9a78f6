//! Engine-level input state and events.
//!
//! Backend-agnostic key, button and element-state types; the raw input
//! events a platform backend sends into the engine's event channels; and the
//! `Input` resource, the stable per-frame snapshot those events are folded
//! into. Cursor positions are whole pixels.

use vstd::prelude::*;

verus! {

/// Whether an element went down or up.
#[derive(Debug, Clone, Copy, PartialEq, Eq, Structural, Hash)]
pub enum EngineElementState {
    Pressed,
    Released,
}

/// Logical engine key, fully enumerated so the engine's interface exposes no
/// backend type; `Raw` carries any key not enumerated here.
#[derive(Debug, Clone, Copy, PartialEq, Eq, Structural, Hash)]
pub enum EngineKey {
    A,
    B,
    C,
    D,
    E,
    F,
    G,
    H,
    I,
    J,
    K,
    L,
    M,
    N,
    O,
    P,
    Q,
    R,
    S,
    T,
    U,
    V,
    W,
    X,
    Y,
    Z,
    Key0,
    Key1,
    Key2,
    Key3,
    Key4,
    Key5,
    Key6,
    Key7,
    Key8,
    Key9,
    F1,
    F2,
    F3,
    F4,
    F5,
    F6,
    F7,
    F8,
    F9,
    F10,
    F11,
    F12,
    Escape,
    Tab,
    CapsLock,
    ShiftLeft,
    ShiftRight,
    ControlLeft,
    ControlRight,
    AltLeft,
    AltRight,
    Space,
    Enter,
    Backspace,
    Insert,
    Delete,
    Home,
    End,
    PageUp,
    PageDown,
    ArrowLeft,
    ArrowRight,
    ArrowUp,
    ArrowDown,
    Numpad0,
    Numpad1,
    Numpad2,
    Numpad3,
    Numpad4,
    Numpad5,
    Numpad6,
    Numpad7,
    Numpad8,
    Numpad9,
    NumpadAdd,
    NumpadSubtract,
    NumpadMultiply,
    NumpadDivide,
    NumpadDecimal,
    PrintScreen,
    Pause,
    ScrollLock,
    Minus,
    Equals,
    LeftBracket,
    RightBracket,
    Backslash,
    Semicolon,
    Apostrophe,
    Grave,
    Comma,
    Period,
    Slash,
    Raw(u32),
}

/// Mouse buttons at engine level.
#[derive(Debug, Clone, Copy, PartialEq, Eq, Structural, Hash)]
pub enum EngineMouseButton {
    Left,
    Right,
    Middle,
    Other(u16),
}

/// A raw keyboard transition, as the platform backend reports it.
#[derive(Debug, Clone, Copy, PartialEq, Eq, Structural)]
pub struct KeyboardInputEvent {
    pub key: EngineKey,
    pub state: EngineElementState,
}

/// A raw mouse-button transition, as the platform backend reports it.
#[derive(Debug, Clone, Copy, PartialEq, Eq, Structural)]
pub struct MouseInputEvent {
    pub button: EngineMouseButton,
    pub state: EngineElementState,
}

/// A cursor move, in whole pixels of window space.
#[derive(Debug, Clone, Copy, PartialEq, Eq, Structural)]
pub struct CursorMovedEvent {
    pub x: i64,
    pub y: i64,
}

/// The stable per-frame input snapshot. `*_pressed` holds what went down
/// this frame; `*_down` holds what is currently held. Either reads as a set:
/// how often a key is listed is immaterial, only whether it is.
pub struct Input {
    keys_pressed: Vec<EngineKey>,
    keys_down: Vec<EngineKey>,
    mouse_button_pressed: Vec<EngineMouseButton>,
    mouse_button_down: Vec<EngineMouseButton>,
    mouse_position: (i64, i64),
}

/// Whether `keys` lists `key`.
fn vec_has_key(keys: &Vec<EngineKey>, key: EngineKey) -> (r: bool)
    ensures
        r == keys@.contains(key),
{
    let n = keys.len();
    let mut i: usize = 0;
    while i < n
        invariant
            n == keys@.len(),
            i <= n,
            forall|j: int| 0 <= j < i ==> keys@[j] != key,
        decreases n - i,
    {
        if keys[i] == key {
            return true;
        }
        i = i + 1;
    }
    false
}

/// `keys` without every listing of `key`, order kept.
fn vec_drop_key(keys: &mut Vec<EngineKey>, key: EngineKey)
    ensures
        final(keys)@ == old(keys)@.filter(|k: EngineKey| k != key),
{
    let ghost input = keys@;
    let n = keys.len();
    let mut out: Vec<EngineKey> = Vec::new();
    proof {
        reveal_with_fuel(Seq::<EngineKey>::filter, 2);
        assert(input.take(0).filter(|k: EngineKey| k != key) =~= Seq::<EngineKey>::empty());
    }
    let mut i: usize = 0;
    while i < n
        invariant
            n == keys@.len(),
            keys@ == input,
            i <= n,
            out@ == input.take(i as int).filter(|k: EngineKey| k != key),
        decreases n - i,
    {
        proof {
            reveal_with_fuel(Seq::<EngineKey>::filter, 2);
            assert(input.take(i as int + 1).drop_last() =~= input.take(i as int));
        }
        let k = keys[i];
        if !(k == key) {
            out.push(k);
        }
        i = i + 1;
    }
    proof {
        assert(input.take(n as int) =~= input);
    }
    *keys = out;
}

/// Whether `buttons` lists `button`.
fn vec_has_button(buttons: &Vec<EngineMouseButton>, button: EngineMouseButton) -> (r: bool)
    ensures
        r == buttons@.contains(button),
{
    let n = buttons.len();
    let mut i: usize = 0;
    while i < n
        invariant
            n == buttons@.len(),
            i <= n,
            forall|j: int| 0 <= j < i ==> buttons@[j] != button,
        decreases n - i,
    {
        if buttons[i] == button {
            return true;
        }
        i = i + 1;
    }
    false
}

/// `buttons` without every listing of `button`, order kept.
fn vec_drop_button(buttons: &mut Vec<EngineMouseButton>, button: EngineMouseButton)
    ensures
        final(buttons)@ == old(buttons)@.filter(|b: EngineMouseButton| b != button),
{
    let ghost input = buttons@;
    let n = buttons.len();
    let mut out: Vec<EngineMouseButton> = Vec::new();
    proof {
        reveal_with_fuel(Seq::<EngineMouseButton>::filter, 2);
        assert(input.take(0).filter(|b: EngineMouseButton| b != button)
            =~= Seq::<EngineMouseButton>::empty());
    }
    let mut i: usize = 0;
    while i < n
        invariant
            n == buttons@.len(),
            buttons@ == input,
            i <= n,
            out@ == input.take(i as int).filter(|b: EngineMouseButton| b != button),
        decreases n - i,
    {
        proof {
            reveal_with_fuel(Seq::<EngineMouseButton>::filter, 2);
            assert(input.take(i as int + 1).drop_last() =~= input.take(i as int));
        }
        let b = buttons[i];
        if !(b == button) {
            out.push(b);
        }
        i = i + 1;
    }
    proof {
        assert(input.take(n as int) =~= input);
    }
    *buttons = out;
}

impl Input {
    /// The keys that went down this frame.
    pub closed spec fn pressed_keys(&self) -> Seq<EngineKey> {
        self.keys_pressed@
    }

    /// The keys currently held.
    pub closed spec fn down_keys(&self) -> Seq<EngineKey> {
        self.keys_down@
    }

    /// The buttons that went down this frame.
    pub closed spec fn pressed_buttons(&self) -> Seq<EngineMouseButton> {
        self.mouse_button_pressed@
    }

    /// The buttons currently held.
    pub closed spec fn down_buttons(&self) -> Seq<EngineMouseButton> {
        self.mouse_button_down@
    }

    /// The cursor position, in whole pixels.
    pub closed spec fn position(&self) -> (i64, i64) {
        self.mouse_position
    }

    /// An empty snapshot: nothing pressed, nothing held, cursor at the
    /// origin.
    pub fn new() -> (input: Input)
        ensures
            input.pressed_keys() == Seq::<EngineKey>::empty(),
            input.down_keys() == Seq::<EngineKey>::empty(),
            input.pressed_buttons() == Seq::<EngineMouseButton>::empty(),
            input.down_buttons() == Seq::<EngineMouseButton>::empty(),
            input.position() == (0i64, 0i64),
    {
        Input {
            keys_pressed: Vec::new(),
            keys_down: Vec::new(),
            mouse_button_pressed: Vec::new(),
            mouse_button_down: Vec::new(),
            mouse_position: (0, 0),
        }
    }

    /// Whether `key` went down this frame.
    pub fn is_key_pressed(&self, key: EngineKey) -> (r: bool)
        ensures
            r == self.pressed_keys().contains(key),
    {
        vec_has_key(&self.keys_pressed, key)
    }

    /// Whether `key` is currently held.
    pub fn is_key_down(&self, key: EngineKey) -> (r: bool)
        ensures
            r == self.down_keys().contains(key),
    {
        vec_has_key(&self.keys_down, key)
    }

    /// Whether `button` went down this frame.
    pub fn is_mouse_button_pressed(&self, button: EngineMouseButton) -> (r: bool)
        ensures
            r == self.pressed_buttons().contains(button),
    {
        vec_has_button(&self.mouse_button_pressed, button)
    }

    /// Whether `button` is currently held.
    pub fn is_mouse_button_down(&self, button: EngineMouseButton) -> (r: bool)
        ensures
            r == self.down_buttons().contains(button),
    {
        vec_has_button(&self.mouse_button_down, button)
    }

    /// Moves the cursor to `(x, y)`.
    pub fn set_mouse_position(&mut self, x: i64, y: i64)
        ensures
            final(self).position() == (x, y),
            final(self).pressed_keys() == old(self).pressed_keys(),
            final(self).down_keys() == old(self).down_keys(),
            final(self).pressed_buttons() == old(self).pressed_buttons(),
            final(self).down_buttons() == old(self).down_buttons(),
    {
        self.mouse_position = (x, y);
    }

    /// The cursor position, in whole pixels.
    pub fn get_mouse_position(&self) -> (r: (i64, i64))
        ensures
            r == self.position(),
    {
        self.mouse_position
    }

    /// Records that `key` went down: if it is already held nothing changes
    /// (holding a key is not pressing it again); otherwise it is added to
    /// both the pressed and the held keys.
    pub fn press_key(&mut self, key: EngineKey)
        ensures
            old(self).down_keys().contains(key) ==> *final(self) == *old(self),
            !old(self).down_keys().contains(key) ==> {
                &&& final(self).pressed_keys() == old(self).pressed_keys().push(key)
                &&& final(self).down_keys() == old(self).down_keys().push(key)
            },
            final(self).pressed_buttons() == old(self).pressed_buttons(),
            final(self).down_buttons() == old(self).down_buttons(),
            final(self).position() == old(self).position(),
    {
        if vec_has_key(&self.keys_down, key) {
            return ;
        }
        self.keys_pressed.push(key);
        self.keys_down.push(key);
    }

    /// Records that `key` went up: it is no longer held. What went down this
    /// frame stays recorded until `clear_frame`.
    pub fn release_key(&mut self, key: EngineKey)
        ensures
            final(self).down_keys() == old(self).down_keys().filter(
                |k: EngineKey| k != key,
            ),
            !final(self).down_keys().contains(key),
            final(self).pressed_keys() == old(self).pressed_keys(),
            final(self).pressed_buttons() == old(self).pressed_buttons(),
            final(self).down_buttons() == old(self).down_buttons(),
            final(self).position() == old(self).position(),
    {
        vec_drop_key(&mut self.keys_down, key);
        proof {
            let dropped = old(self).down_keys().filter(|k: EngineKey| k != key);
            if dropped.contains(key) {
                let i = choose|i: int| 0 <= i < dropped.len() && dropped[i] == key;
                old(self).down_keys().lemma_filter_pred(|k: EngineKey| k != key, i);
            }
        }
    }

    /// Records that `button` went down: as `press_key`, for mouse buttons.
    pub fn press_mouse_button(&mut self, button: EngineMouseButton)
        ensures
            old(self).down_buttons().contains(button) ==> *final(self) == *old(self),
            !old(self).down_buttons().contains(button) ==> {
                &&& final(self).pressed_buttons() == old(self).pressed_buttons().push(button)
                &&& final(self).down_buttons() == old(self).down_buttons().push(button)
            },
            final(self).pressed_keys() == old(self).pressed_keys(),
            final(self).down_keys() == old(self).down_keys(),
            final(self).position() == old(self).position(),
    {
        if vec_has_button(&self.mouse_button_down, button) {
            return ;
        }
        self.mouse_button_pressed.push(button);
        self.mouse_button_down.push(button);
    }

    /// Records that `button` went up: as `release_key`, for mouse buttons.
    pub fn release_mouse_button(&mut self, button: EngineMouseButton)
        ensures
            final(self).down_buttons() == old(self).down_buttons().filter(
                |b: EngineMouseButton| b != button,
            ),
            !final(self).down_buttons().contains(button),
            final(self).pressed_keys() == old(self).pressed_keys(),
            final(self).down_keys() == old(self).down_keys(),
            final(self).pressed_buttons() == old(self).pressed_buttons(),
            final(self).position() == old(self).position(),
    {
        vec_drop_button(&mut self.mouse_button_down, button);
        proof {
            let dropped = old(self).down_buttons().filter(|b: EngineMouseButton| b != button);
            if dropped.contains(button) {
                let i = choose|i: int| 0 <= i < dropped.len() && dropped[i] == button;
                old(self).down_buttons().lemma_filter_pred(|b: EngineMouseButton| b != button, i);
            }
        }
    }

    /// Ends the frame: what went down this frame is forgotten, what is held
    /// stays held.
    pub fn clear_frame(&mut self)
        ensures
            final(self).pressed_keys() == Seq::<EngineKey>::empty(),
            final(self).pressed_buttons() == Seq::<EngineMouseButton>::empty(),
            final(self).down_keys() == old(self).down_keys(),
            final(self).down_buttons() == old(self).down_buttons(),
            final(self).position() == old(self).position(),
    {
        self.keys_pressed.clear();
        self.mouse_button_pressed.clear();
    }

    /// The window lost focus: every key and button counts as released, so
    /// nothing stays stuck down while the window cannot see it go up.
    pub fn lost_focus(&mut self)
        ensures
            final(self).pressed_keys() == Seq::<EngineKey>::empty(),
            final(self).down_keys() == Seq::<EngineKey>::empty(),
            final(self).pressed_buttons() == Seq::<EngineMouseButton>::empty(),
            final(self).down_buttons() == Seq::<EngineMouseButton>::empty(),
            final(self).position() == old(self).position(),
    {
        self.keys_pressed.clear();
        self.keys_down.clear();
        self.mouse_button_pressed.clear();
        self.mouse_button_down.clear();
    }
}

} // verus!
