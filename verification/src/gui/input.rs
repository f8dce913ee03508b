//! Keyboard and mouse input types.
use vstd::prelude::*;

verus! {

/// Mouse buttons.
#[derive(Copy, Clone, PartialEq, Eq, Structural, Hash, Debug)]
pub enum MouseButton {
    /// Left button.
    Left,
    /// Right button.
    Right,
    /// Middle button.
    Middle,
    /// Another button, by number.
    Other(u8),
}

/// Keyboard modifier keys held during an event.
#[derive(Copy, Clone, PartialEq, Eq, Structural, Hash, Debug)]
pub struct Modifiers {
    /// Shift.
    pub shift: bool,
    /// Control (Command on macOS).
    pub ctrl: bool,
    /// Alt / Option.
    pub alt: bool,
    /// Meta / Windows / Command.
    pub meta: bool,
}

impl Modifiers {
    /// No modifier held.
    pub fn none() -> (m: Modifiers)
        ensures !m.shift, !m.ctrl, !m.alt, !m.meta,
    {
        Modifiers { shift: false, ctrl: false, alt: false, meta: false }
    }

    /// Whether any modifier is held.
    pub fn any(&self) -> (b: bool)
        ensures b == (self.shift || self.ctrl || self.alt || self.meta),
    {
        self.shift || self.ctrl || self.alt || self.meta
    }
}

impl Default for Modifiers {
    fn default() -> (m: Modifiers)
        ensures !m.shift, !m.ctrl, !m.alt, !m.meta,
    {
        Modifiers::none()
    }
}

/// Virtual key codes.
#[derive(Copy, Clone, PartialEq, Eq, Structural, Hash, Debug)]
pub enum KeyCode {
    /// A.
    A,
    /// B.
    B,
    /// C.
    C,
    /// D.
    D,
    /// E.
    E,
    /// F.
    F,
    /// G.
    G,
    /// H.
    H,
    /// I.
    I,
    /// J.
    J,
    /// K.
    K,
    /// L.
    L,
    /// M.
    M,
    /// N.
    N,
    /// O.
    O,
    /// P.
    P,
    /// Q.
    Q,
    /// R.
    R,
    /// S.
    S,
    /// T.
    T,
    /// U.
    U,
    /// V.
    V,
    /// W.
    W,
    /// X.
    X,
    /// Y.
    Y,
    /// Z.
    Z,
    /// 0.
    Num0,
    /// 1.
    Num1,
    /// 2.
    Num2,
    /// 3.
    Num3,
    /// 4.
    Num4,
    /// 5.
    Num5,
    /// 6.
    Num6,
    /// 7.
    Num7,
    /// 8.
    Num8,
    /// 9.
    Num9,
    /// F1.
    F1,
    /// F2.
    F2,
    /// F3.
    F3,
    /// F4.
    F4,
    /// F5.
    F5,
    /// F6.
    F6,
    /// F7.
    F7,
    /// F8.
    F8,
    /// F9.
    F9,
    /// F10.
    F10,
    /// F11.
    F11,
    /// F12.
    F12,
    /// Left arrow.
    Left,
    /// Right arrow.
    Right,
    /// Up arrow.
    Up,
    /// Down arrow.
    Down,
    /// Escape.
    Escape,
    /// Tab.
    Tab,
    /// Backspace.
    Backspace,
    /// Return.
    Return,
    /// Space.
    Space,
    /// Delete.
    Delete,
    /// Home.
    Home,
    /// End.
    End,
    /// Page up.
    PageUp,
    /// Page down.
    PageDown,
    /// Insert.
    Insert,
    /// Shift.
    Shift,
    /// Control.
    Control,
    /// Alt.
    Alt,
    /// Meta.
    Meta,
    /// Any other key, by platform code.
    Unknown(u32),
}

/// Keyboard events.
#[derive(Clone, Debug)]
pub enum KeyboardEvent {
    /// A key went down.
    KeyDown {
        /// The key.
        key: KeyCode,
        /// Its character, if printable.
        character: Option<char>,
        /// Modifiers held.
        modifiers: Modifiers,
        /// Whether this is an auto-repeat.
        repeat: bool,
    },
    /// A key went up.
    KeyUp {
        /// The key.
        key: KeyCode,
        /// Modifiers held.
        modifiers: Modifiers,
    },
    /// Composed text input.
    TextInput {
        /// The text.
        text: String,
    },
}

impl KeyboardEvent {
    /// The modifiers of a key event; text input has none.
    pub fn modifiers(&self) -> (m: Option<Modifiers>)
        ensures
            m == (match self {
                KeyboardEvent::KeyDown { modifiers, .. } => Some(*modifiers),
                KeyboardEvent::KeyUp { modifiers, .. } => Some(*modifiers),
                KeyboardEvent::TextInput { .. } => None,
            }),
    {
        match self {
            KeyboardEvent::KeyDown { modifiers, .. } => Some(*modifiers),
            KeyboardEvent::KeyUp { modifiers, .. } => Some(*modifiers),
            KeyboardEvent::TextInput { .. } => None,
        }
    }

    /// The key of a key event; text input has none.
    pub fn key_code(&self) -> (k: Option<KeyCode>)
        ensures
            k == (match self {
                KeyboardEvent::KeyDown { key, .. } => Some(*key),
                KeyboardEvent::KeyUp { key, .. } => Some(*key),
                KeyboardEvent::TextInput { .. } => None,
            }),
    {
        match self {
            KeyboardEvent::KeyDown { key, .. } => Some(*key),
            KeyboardEvent::KeyUp { key, .. } => Some(*key),
            KeyboardEvent::TextInput { .. } => None,
        }
    }
}

/// Whether an input event was consumed.
#[derive(Copy, Clone, PartialEq, Eq, Structural, Debug)]
pub enum EventResult {
    /// Handled; stop propagating.
    Handled,
    /// Not handled; pass it on to the parent.
    NotHandled,
}

/// Implemented by components that handle keyboard events.
pub trait KeyboardListener {
    /// Handle a keyboard event; by default nothing is handled.
    fn on_keyboard_event(&mut self, event: &KeyboardEvent) -> (r: EventResult)
        default_ensures
            r == EventResult::NotHandled,
    {
        let _ = event;
        EventResult::NotHandled
    }
}

} // verus!
