//! Mode-scoped interpretation of key presses.
//!
//! The same physical key means different things while viewing and while
//! typing a search, so a key press is first routed by the current mode and
//! then mapped to a command by a pure, total function.  Keys with no binding
//! for the current mode map to that mode's `Noop`.

use vstd::prelude::*;

use crate::key::Key;
use crate::mode::Mode;

verus! {

/// A command, already routed to the mode it belongs to.
#[derive(Clone, Copy, PartialEq, Eq, Structural, Debug)]
pub enum Cmd {
    View(ViewCmd),
    Search(SearchCmd),
}

/// A command available while viewing.
#[derive(Clone, Copy, PartialEq, Eq, Structural, Debug)]
pub enum ViewCmd {
    Quit,
    Scroll(Dir),
    StartSearching,
    NextSearchResult,
    Noop,
}

/// A scroll request.
#[derive(Clone, Copy, PartialEq, Eq, Structural, Debug)]
pub enum Dir {
    Up(usize),
    Down(usize),
    HalfPageUp,
    HalfPageDown,
    Top,
    Bottom,
}

/// A command available while typing a search.
#[derive(Clone, Copy, PartialEq, Eq, Structural, Debug)]
pub enum SearchCmd {
    /// Append one character to the search input.
    EnterText(char),
    /// Delete the last character of the search input.
    RemoveChar,
    /// Leave searching mode, confirming the typed text.
    Confirm,
    Noop,
}

/// The key binding while viewing.
pub open spec fn view_cmd_of(key: Key) -> ViewCmd {
    match key {
        Key::Char('q') | Key::Ctrl('c') => ViewCmd::Quit,
        Key::Char('j') | Key::Down => ViewCmd::Scroll(Dir::Down(1)),
        Key::Char('k') | Key::Up => ViewCmd::Scroll(Dir::Up(1)),
        Key::Char('n') => ViewCmd::NextSearchResult,
        Key::Char('g') | Key::Home => ViewCmd::Scroll(Dir::Top),
        Key::Char('G') | Key::End => ViewCmd::Scroll(Dir::Bottom),
        Key::Ctrl('d') | Key::PageDown => ViewCmd::Scroll(Dir::HalfPageDown),
        Key::Ctrl('u') | Key::PageUp => ViewCmd::Scroll(Dir::HalfPageUp),
        Key::Char('/') => ViewCmd::StartSearching,
        _ => ViewCmd::Noop,
    }
}

/// The key binding while typing a search.
pub open spec fn search_cmd_of(key: Key) -> SearchCmd {
    match key {
        Key::Char('\n') => SearchCmd::Confirm,
        Key::Char(c) => SearchCmd::EnterText(c),
        Key::Backspace => SearchCmd::RemoveChar,
        _ => SearchCmd::Noop,
    }
}

impl ViewCmd {
    /// Executable form of [`view_cmd_of`].
    pub fn from_key(key: Key) -> (r: ViewCmd)
        ensures
            r == view_cmd_of(key),
    {
        match key {
            Key::Char('q') | Key::Ctrl('c') => ViewCmd::Quit,
            Key::Char('j') | Key::Down => ViewCmd::Scroll(Dir::Down(1)),
            Key::Char('k') | Key::Up => ViewCmd::Scroll(Dir::Up(1)),
            Key::Char('n') => ViewCmd::NextSearchResult,
            Key::Char('g') | Key::Home => ViewCmd::Scroll(Dir::Top),
            Key::Char('G') | Key::End => ViewCmd::Scroll(Dir::Bottom),
            Key::Ctrl('d') | Key::PageDown => ViewCmd::Scroll(Dir::HalfPageDown),
            Key::Ctrl('u') | Key::PageUp => ViewCmd::Scroll(Dir::HalfPageUp),
            Key::Char('/') => ViewCmd::StartSearching,
            _ => ViewCmd::Noop,
        }
    }
}

impl SearchCmd {
    /// Executable form of [`search_cmd_of`].
    pub fn from_key(key: Key) -> (r: SearchCmd)
        ensures
            r == search_cmd_of(key),
    {
        match key {
            Key::Char('\n') => SearchCmd::Confirm,
            Key::Char(c) => SearchCmd::EnterText(c),
            Key::Backspace => SearchCmd::RemoveChar,
            _ => SearchCmd::Noop,
        }
    }
}

impl Cmd {
    /// Routes a key press to the command set of the current mode: a key seen
    /// while viewing can only yield a `View` command, one seen while
    /// searching only a `Search` command.
    pub fn from_key(mode: &Mode, key: Key) -> (r: Cmd)
        ensures
            match mode@ {
                crate::mode::ModeView::Viewing(_) => r == Cmd::View(view_cmd_of(key)),
                crate::mode::ModeView::Searching(_) => r == Cmd::Search(search_cmd_of(key)),
            },
    {
        match mode {
            Mode::Viewing(_) => Cmd::View(ViewCmd::from_key(key)),
            Mode::Searching(_) => Cmd::Search(SearchCmd::from_key(key)),
        }
    }
}

} // verus!
