use vstd::prelude::*;

verus! {

/// A key press, reduced to what the game distinguishes.
#[derive(Debug, Clone, Copy, PartialEq, Eq)]
pub enum KeyInput {
    Up,
    Down,
    Left,
    Right,
    Enter,
    Backspace,
    Esc,
    /// A printable character; the space bar is `Char(' ')`.
    Char(char),
    /// Any other key; every handler ignores it.
    Other,
}

} // verus!
