use vstd::prelude::*;

verus! {

/// A key of the keyboard, as far as the application tells keys apart.
#[derive(PartialEq, Eq, Debug, Clone, Copy, Structural)]
pub enum KeyCode {
    Char(char),
    Esc,
    Enter,
    Backspace,
    Tab,
    Left,
    Right,
    Up,
    Down,
    /// A function key, by its number.
    F(u8),
    /// Any key the application does not react to.
    Other,
}

/// The modifier keys held with a key: none (a plain key), exactly Shift, or anything else.
#[derive(PartialEq, Eq, Debug, Clone, Copy, Structural)]
pub enum KeyModifiers {
    Plain,
    Shift,
    Other,
}

/// A key press.
#[derive(PartialEq, Eq, Debug, Clone, Copy, Structural)]
pub struct KeyEvent {
    pub code: KeyCode,
    pub modifiers: KeyModifiers,
}

impl KeyEvent {
    pub fn new(code: KeyCode, modifiers: KeyModifiers) -> (r: KeyEvent)
        ensures
            r == (KeyEvent { code, modifiers }),
    {
        KeyEvent { code, modifiers }
    }
}

} // verus!
