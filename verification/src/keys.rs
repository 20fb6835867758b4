//! A plain model of terminal key events: just the key and its modifiers,
//! which is all the dispatch logic ever reads. The terminal layer converts
//! its own event type into this one before handing events to the library.

use vstd::prelude::*;

verus! {

#[derive(Debug, Clone, Copy, PartialEq, Eq)]
pub enum KeyCode {
    Up,
    Down,
    Left,
    Right,
    Enter,
    Esc,
    Tab,
    Backspace,
    Char(char),
    Other,
}

#[derive(Debug, Clone, Copy, PartialEq, Eq)]
pub enum KeyModifiers {
    Plain,
    Shift,
    Control,
}

#[derive(Debug, Clone, Copy, PartialEq, Eq)]
pub struct KeyEvent {
    pub code: KeyCode,
    pub modifiers: KeyModifiers,
}

impl KeyEvent {
    pub fn new(code: KeyCode, modifiers: KeyModifiers) -> (r: Self)
        ensures
            r.code == code,
            r.modifiers == modifiers,
    {
        KeyEvent { code, modifiers }
    }
}

} // verus!
