//! The one input boundary of the core: a keyboard event carrying a key
//! identifier. The surrounding program translates whatever its terminal
//! backend delivers into this type.
use vstd::prelude::*;

verus! {

/// A key event. `Other` stands for any key the dashboard does not handle.
#[derive(Clone, Copy, PartialEq, Eq, Structural, Debug)]
pub enum Key {
    Char(char),
    Up,
    Down,
    Left,
    Right,
    Home,
    End,
    Enter,
    Esc,
    Backspace,
    Delete,
    Other,
}

} // verus!
