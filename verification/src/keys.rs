//! Keys.

use vstd::prelude::*;

verus! {

/// A key.
#[derive(Debug, Clone, Copy, PartialEq, Eq, Structural)]
pub enum Key {
    Enter,
    Tab,
    Left,
    Right,
    Up,
    Down,
    Esc,
    Backspace,
    Char(char),
    Other,
}

/// A key that was pressed, and whether the control key was held.
#[derive(Debug, Clone, Copy, PartialEq, Eq, Structural)]
pub struct KeyPress {
    pub key: Key,
    pub control: bool,
}

} // verus!
