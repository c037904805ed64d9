//! The decoded key input the session routes.
//!
//! The raw terminal event stream is decoded outside; the session receives
//! one of these per key press.

use vstd::prelude::*;

verus! {

/// One decoded key press.
#[derive(Debug, Clone, Copy, PartialEq, Eq, Structural)]
pub enum KeyInput {
    /// A printable character, as typed.
    Char(char),
    Esc,
    Enter,
    Backspace,
    Delete,
    Left,
    Right,
    Tab,
    Up,
    Down,
    /// Any key the session has no command for.
    Other,
}

} // verus!
