//! The keys the panels react to, independent of the terminal library.
use vstd::prelude::*;

verus! {

/// A key press as the panels see it.
#[derive(Debug, Clone, Copy, PartialEq, Eq, Structural)]
pub enum Key {
    Char(char),
    Up,
    Down,
    Left,
    Right,
    Enter,
    Esc,
    Backspace,
    Tab,
    BackTab,
    /// Any key no panel binds.
    Other,
}

} // verus!
