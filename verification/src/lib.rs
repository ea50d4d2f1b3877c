//! Core of an interactive terminal pager.
//!
//! The library owns everything that can be reasoned about without touching a
//! terminal: the growing line buffer, the scroll offset and its clamping
//! arithmetic, the viewing/searching mode machine, literal substring search,
//! and the computation of what each render must show (text rows, highlight
//! spans, the status line, cursor placement).  The thin shell around it reads
//! keys and lines and drives an actual terminal with the values produced here.

pub mod cmd;
pub mod key;
pub mod laws;
pub mod mode;
pub mod numfmt;
pub mod render;
pub mod search;
pub mod state;
