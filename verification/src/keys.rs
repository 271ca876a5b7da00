//! Keys and the other events of a terminal.

use vstd::prelude::*;

verus! {

/// A key of the keyboard, as far as any binding needs it.
#[derive(Debug, Clone, Copy, PartialEq, Eq)]
pub enum KeyCode {
    Esc,
    Enter,
    Tab,
    BackTab,
    Backspace,
    Up,
    Down,
    PageUp,
    PageDown,
    Home,
    End,
    Char(char),
    Other,
}

/// A key together with the modifiers that were held.
#[derive(Debug, Clone, Copy, PartialEq, Eq)]
pub struct Key {
    pub code: KeyCode,
    pub shift: bool,
    pub control: bool,
    pub command: bool,
}

/// An event of the terminal.
#[derive(Debug, Clone, Copy, PartialEq, Eq)]
pub enum Event {
    /// A key, and whether it went down.
    Key(Key, bool),
    /// The wheel turned down over a column and a row.
    ScrollDown(u16, u16),
    /// The wheel turned up over a column and a row.
    ScrollUp(u16, u16),
    Other,
}

/// Whether `key` is the character `upper`, or the character `lower` of the same
/// key with Shift or Command held.
pub open spec fn is_shortcut(key: Key, upper: char, lower: char) -> bool {
    ||| key.code == KeyCode::Char(upper)
    ||| key.code == KeyCode::Char(lower) && (key.shift || key.command)
}

/// Whether a key asks to copy the address.
pub fn is_copy_url_shortcut(key: Key) -> (r: bool)
    ensures
        r == is_shortcut(key, '<', ','),
{
    match key.code {
        KeyCode::Char(c) => c == '<' || (c == ',' && (key.shift || key.command)),
        _ => false,
    }
}

/// Whether a key asks to copy the number.
pub fn is_copy_number_shortcut(key: Key) -> (r: bool)
    ensures
        r == is_shortcut(key, '>', '.'),
{
    match key.code {
        KeyCode::Char(c) => c == '>' || (c == '.' && (key.shift || key.command)),
        _ => false,
    }
}

} // verus!
