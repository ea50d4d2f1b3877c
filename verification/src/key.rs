//! The library's model of a single key press.
//!
//! The input reader delivers one of these per physical key.  Printable
//! characters, control chords and the named navigation keys are the only
//! presses the pager reacts to; everything else arrives as `Other` and is
//! ignored by both modes.

use vstd::prelude::*;

verus! {

/// One key press as reported by the terminal input reader.
#[derive(Clone, Copy, PartialEq, Eq, Structural, Debug)]
pub enum Key {
    /// A printable character (this includes `'\n'` for the Enter key).
    Char(char),
    /// A character pressed together with Control.
    Ctrl(char),
    /// A character pressed together with Alt.
    Alt(char),
    Up,
    Down,
    Left,
    Right,
    Home,
    End,
    PageUp,
    PageDown,
    Backspace,
    Delete,
    Esc,
    /// Any key press the pager has no binding for.
    Other,
}

} // verus!
