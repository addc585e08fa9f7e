use vstd::prelude::*;

verus! {

/// The key of a key press, by what it means rather than by how a terminal
/// encodes it.
#[derive(Clone, Copy, Debug, PartialEq, Eq, Structural)]
pub enum Key {
    Char(char),
    Enter,
    Esc,
    Tab,
    Backspace,
    Delete,
    Left,
    Right,
    Up,
    Down,
    Home,
    End,
    Other,
}

/// A key press with the modifiers held down with it.
#[derive(Clone, Copy, Debug, PartialEq, Eq, Structural)]
pub struct KeyInput {
    pub key: Key,
    pub ctrl: bool,
    pub alt: bool,
}

impl KeyInput {
    /// A key pressed without modifiers.
    pub fn plain(key: Key) -> (r: KeyInput)
        ensures
            r == (KeyInput { key, ctrl: false, alt: false }),
    {
        KeyInput { key, ctrl: false, alt: false }
    }

    /// A key pressed with the control key held down.
    pub fn with_ctrl(key: Key) -> (r: KeyInput)
        ensures
            r == (KeyInput { key, ctrl: true, alt: false }),
    {
        KeyInput { key, ctrl: true, alt: false }
    }
}

} // verus!
