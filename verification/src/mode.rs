//! The interaction mode of the viewer.
//!
//! At any instant the pager is either viewing (optionally with a confirmed,
//! non-empty search term that is highlighted and navigable) or collecting a
//! not-yet-confirmed search string.  Mode transitions are the only place
//! search state changes.

use vstd::prelude::*;

verus! {

/// The current interaction mode.
#[derive(Debug)]
pub enum Mode {
    /// Normal paging.  `Some(term)` carries the active search term used for
    /// highlighting and "next match"; it is always non-empty when present.
    Viewing(Option<String>),
    /// Collecting search input; the `String` is the in-progress, not yet
    /// confirmed text.
    Searching(String),
}

/// The mathematical value of a [`Mode`]: the carried strings as character
/// sequences.
pub enum ModeView {
    Viewing(Option<Seq<char>>),
    Searching(Seq<char>),
}

impl View for Mode {
    type V = ModeView;

    open spec fn view(&self) -> ModeView {
        match self {
            Mode::Viewing(None) => ModeView::Viewing(None),
            Mode::Viewing(Some(term)) => ModeView::Viewing(Some(term@)),
            Mode::Searching(input) => ModeView::Searching(input@),
        }
    }
}

impl Mode {
    /// The active search term while viewing, if any.
    pub open spec fn spec_active_term(&self) -> Option<Seq<char>> {
        match self@ {
            ModeView::Viewing(term) => term,
            ModeView::Searching(_) => None,
        }
    }

    /// True while the user is typing a search.
    pub fn is_searching(&self) -> (r: bool)
        ensures
            r == (self@ is Searching),
    {
        match self {
            Mode::Searching(_) => true,
            Mode::Viewing(_) => false,
        }
    }
}

} // verus!
