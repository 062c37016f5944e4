//! Key presses as the screens read them.
use vstd::prelude::*;

verus! {

/// The key of a key press.
#[derive(Clone, Copy, PartialEq, Eq, Structural)]
pub enum KeyCode {
    Char(char),
    Esc,
    Enter,
    Tab,
    Up,
    Down,
    Left,
    Right,
    Home,
    End,
    /// Any other key.
    Other,
}

/// A key press: the key, and whether the modifiers held were exactly Control.
#[derive(Clone, Copy, PartialEq, Eq, Structural)]
pub struct KeyPress {
    pub control: bool,
    pub code: KeyCode,
}

/// Whether the key is the given character.
pub open spec fn is_char(k: KeyPress, c: char) -> bool {
    k.code == KeyCode::Char(c)
}

/// Escape, `q`, or Control with `c`/`C`: the keys that leave a screen.
pub open spec fn is_leave_key(k: KeyPress) -> bool {
    k.code == KeyCode::Esc || is_char(k, 'q') || (k.control && (is_char(k, 'c') || is_char(k, 'C')))
}

/// Whether the key is the given character.
pub fn key_is_char(k: &KeyPress, c: char) -> (r: bool)
    ensures
        r == is_char(*k, c),
{
    match k.code {
        KeyCode::Char(x) => x == c,
        _ => false,
    }
}

/// Escape, `q`, or Control with `c`/`C`.
pub fn key_is_leave(k: &KeyPress) -> (r: bool)
    ensures
        r == is_leave_key(*k),
{
    k.code == KeyCode::Esc || key_is_char(k, 'q') || (k.control && (key_is_char(k, 'c') || key_is_char(k, 'C')))
}

} // verus!
