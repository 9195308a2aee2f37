//! The keys that the pages react to.

use vstd::prelude::*;

verus! {

/// A key press, as far as any page tells keys apart.
#[derive(Clone, Copy, Debug, PartialEq, Eq, Structural)]
pub enum Key {
    Esc,
    Enter,
    Tab,
    Up,
    Down,
    Left,
    Right,
    PageUp,
    PageDown,
    Backspace,
    Char(char),
    /// Any other key.
    Other,
}

} // verus!
