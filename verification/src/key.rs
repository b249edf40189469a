//! Key presses as the library reads them.
use vstd::prelude::*;

verus! {

/// The key that was pressed.
#[derive(Clone, Copy, Debug, PartialEq, Eq, Structural)]
pub enum KeyCode {
    Char(char),
    Enter,
    Esc,
    Backspace,
    Tab,
    BackTab,
    Up,
    Down,
    Left,
    Right,
    /// Any key the client gives no meaning to.
    Other,
}

/// Whether the key went down, repeats, or came up.
#[derive(Clone, Copy, Debug, PartialEq, Eq, Structural)]
pub enum KeyKind {
    Press,
    Repeat,
    Release,
}

/// A key event: the key, the modifiers held, and its kind.
#[derive(Clone, Copy, Debug, PartialEq, Eq, Structural)]
pub struct Key {
    pub code: KeyCode,
    pub control: bool,
    pub shift: bool,
    pub kind: KeyKind,
}

impl Key {
    /// A press of the key with no modifier held.
    pub fn new(code: KeyCode) -> (r: Key)
        ensures
            r == (Key { code, control: false, shift: false, kind: KeyKind::Press }),
    {
        Key { code, control: false, shift: false, kind: KeyKind::Press }
    }
}

} // verus!
