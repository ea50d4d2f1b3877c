//! The viewer state machine.
//!
//! One value of [`State`] owns everything the pager mutates: the append-only
//! line buffer, the scroll offset, the interaction mode and the dirty flag,
//! together with the terminal dimensions it is currently laid out for (the
//! shell re-queries them before each draw and hands them back through
//! [`State::set_viewport`], which re-clamps the offset).  Events (an appended
//! batch of lines, or one key press) are consumed one at a time; each
//! produces exactly one observable effect, described by the step relations
//! below.
//!
//! Conventions, applied consistently:
//! - one terminal row is reserved for the status line, so `height - 1` text
//!   rows are visible;
//! - `max_offset` is `max(0, len - (height - 1))`: the offset at which the
//!   tail of the buffer fills the text rows;
//! - scroll commands clamp into `[0, max_offset]` and a clamped-away no-op
//!   never sets the dirty flag;
//! - a search jump moves to the matched line index itself, which is always
//!   below `len`, so the offset never exceeds the buffer length.

use vstd::prelude::*;

use crate::cmd::{search_cmd_of, view_cmd_of, Cmd, Dir, SearchCmd, ViewCmd};
use crate::key::Key;
use crate::mode::{Mode, ModeView};
use crate::search;
use crate::search::{first_line_match, lines_view};

verus! {

/// One multiplexed event, as the consumer loop sees it.
pub enum Event {
    /// A batch of lines read from the source.
    MoreData(Vec<String>),
    /// One key press.
    Key(Key),
}

/// The number of text rows a terminal of height `height` shows: one row is
/// reserved for the status line.
pub open spec fn text_height_spec(height: int) -> int {
    height - 1
}

/// The largest scroll offset the scroll commands reach: `0` when the whole
/// buffer fits on the text rows, otherwise the offset that puts the last
/// line on the last text row.
pub open spec fn max_offset_spec(len: int, height: int) -> int {
    if len > height - 1 {
        len - (height - 1)
    } else {
        0
    }
}

/// `target` clamped into `[0, max_off]`.
pub open spec fn clamp_offset(target: int, max_off: int) -> int {
    if target > max_off {
        max_off
    } else if target < 0 {
        0
    } else {
        target
    }
}

/// The unclamped offset a scroll command aims at.
pub open spec fn scroll_target(offset: int, dir: Dir, len: int, height: int) -> int {
    match dir {
        Dir::Up(n) => offset - n,
        Dir::Down(n) => offset + n,
        Dir::HalfPageUp => offset - height / 2,
        Dir::HalfPageDown => offset + height / 2,
        Dir::Top => 0,
        Dir::Bottom => len,
    }
}

/// The offset after a scroll command: the target, clamped.
pub open spec fn scroll_result(offset: int, dir: Dir, len: int, height: int) -> int {
    clamp_offset(scroll_target(offset, dir, len, height), max_offset_spec(len, height))
}

/// All mutable viewing state, plus the terminal dimensions it is laid
/// out for.
pub struct State {
    /// The accumulated lines; append-only.
    pub data: Vec<String>,
    /// Index of the first line currently shown.
    pub offset: usize,
    /// True when the text rows must be fully redrawn.
    pub dirty: bool,
    /// The interaction mode, carrying the search state.
    pub mode: Mode,
    /// Terminal height in rows (including the status row); at least 1.
    pub height: usize,
    /// Terminal width in columns; at least 1.
    pub width: usize,
}

impl State {
    /// Well-formedness: sane dimensions, the offset inside the buffer, and
    /// an active search term never empty.
    pub open spec fn wf(&self) -> bool {
        &&& self.height >= 1
        &&& self.width >= 1
        &&& self.offset <= self.data@.len()
        &&& match self.mode@ {
            ModeView::Viewing(Some(t)) => t.len() > 0,
            _ => true,
        }
    }

    /// The number of visible text rows.
    pub open spec fn spec_text_height(&self) -> int {
        text_height_spec(self.height as int)
    }

    /// The largest offset the scroll commands reach.
    pub open spec fn spec_max_offset(&self) -> int {
        max_offset_spec(self.data@.len() as int, self.height as int)
    }

    /// A fresh state for a terminal of the given size: empty buffer, offset
    /// zero, viewing without a search term, and in need of a first full
    /// redraw.
    pub fn new(width: usize, height: usize) -> (s: State)
        requires
            width >= 1,
            height >= 1,
        ensures
            s.wf(),
            s.data@.len() == 0,
            s.offset == 0,
            s.dirty,
            s.mode@ == ModeView::Viewing(None::<Seq<char>>),
            s.height == height,
            s.width == width,
    {
        State { data: Vec::new(), offset: 0, dirty: true, mode: Mode::Viewing(None), height, width }
    }

    /// Executable form of [`State::spec_max_offset`].
    pub fn max_offset(&self) -> (r: usize)
        requires
            self.wf(),
        ensures
            r as int == self.spec_max_offset(),
    {
        let len = self.data.len();
        let th = self.height - 1;
        if len > th {
            len - th
        } else {
            0
        }
    }
}

/// Fields no key press ever changes: the buffer and the dimensions.
pub open spec fn frame(pre: State, post: State) -> bool {
    &&& post.data == pre.data
    &&& post.height == pre.height
    &&& post.width == pre.width
}

/// Nothing observable changed.
pub open spec fn unchanged_view(pre: State, post: State) -> bool {
    &&& post.offset == pre.offset
    &&& post.dirty == pre.dirty
    &&& post.mode@ == pre.mode@
}

/// The effect of one scroll command: the offset moves to the clamped
/// target, and the dirty flag is raised exactly when the offset actually
/// moved.
pub open spec fn scrolled(pre: State, post: State, d: Dir) -> bool {
    &&& post.offset as int == scroll_result(
        pre.offset as int,
        d,
        pre.data@.len() as int,
        pre.height as int,
    )
    &&& post.dirty == (pre.dirty || post.offset != pre.offset)
    &&& post.mode@ == pre.mode@
}

/// The effect of "next match" with active term `term`: jump to the first
/// line strictly after the current offset that contains the term, or stay
/// put; either way the text region is redrawn.
pub open spec fn searched_next(pre: State, post: State, term: Seq<char>) -> bool {
    &&& post.dirty
    &&& post.mode@ == pre.mode@
    &&& post.offset as int == match first_line_match(
        lines_view(pre.data@),
        term,
        pre.offset + 1,
    ) {
        Some(i) => i,
        None => pre.offset as int,
    }
}

/// The effect of confirming the search input `input`: an empty input just
/// clears the active term; otherwise the buffer is searched from the
/// current offset on, and on a match the offset jumps there and the term
/// becomes active, while on a miss the offset stays and no term is active.
pub open spec fn confirmed(pre: State, post: State, input: Seq<char>) -> bool {
    &&& post.dirty
    &&& if input.len() == 0 {
        &&& post.mode@ == ModeView::Viewing(None::<Seq<char>>)
        &&& post.offset == pre.offset
    } else {
        match first_line_match(lines_view(pre.data@), input, pre.offset as int) {
            Some(i) => {
                &&& post.mode@ == ModeView::Viewing(Some(input))
                &&& post.offset as int == i
            },
            None => {
                &&& post.mode@ == ModeView::Viewing(None::<Seq<char>>)
                &&& post.offset == pre.offset
            },
        }
    }
}

/// The full effect of one key press, scoped by the mode it arrived in.
pub open spec fn step_post(pre: State, post: State, key: Key, quit: bool) -> bool {
    &&& frame(pre, post)
    &&& match pre.mode {
        Mode::Viewing(term_opt) => match view_cmd_of(key) {
            ViewCmd::Quit => quit && unchanged_view(pre, post),
            ViewCmd::Scroll(d) => !quit && scrolled(pre, post, d),
            ViewCmd::StartSearching => {
                &&& !quit
                &&& post.mode@ == ModeView::Searching(Seq::<char>::empty())
                &&& post.offset == pre.offset
                &&& post.dirty == pre.dirty
            },
            ViewCmd::NextSearchResult => !quit && match term_opt {
                Some(t) => searched_next(pre, post, t@),
                None => unchanged_view(pre, post),
            },
            ViewCmd::Noop => !quit && unchanged_view(pre, post),
        },
        Mode::Searching(input) => match search_cmd_of(key) {
            SearchCmd::Confirm => !quit && confirmed(pre, post, input@),
            SearchCmd::EnterText(c) => {
                &&& !quit
                &&& post.mode@ == ModeView::Searching(input@.push(c))
                &&& post.offset == pre.offset
                &&& post.dirty == pre.dirty
            },
            SearchCmd::RemoveChar => {
                &&& !quit
                &&& post.mode@ == ModeView::Searching(
                    if input@.len() == 0 {
                        input@
                    } else {
                        input@.drop_last()
                    },
                )
                &&& post.offset == pre.offset
                &&& post.dirty == pre.dirty
            },
            SearchCmd::Noop => !quit && unchanged_view(pre, post),
        },
    }
}

/// The effect of appending a batch: the lines land at the tail, the offset
/// stays, and the dirty flag is raised exactly when a non-empty batch lands
/// inside the visible text rows.
pub open spec fn append_post(pre: State, post: State, batch: Seq<String>) -> bool {
    &&& post.data@ == pre.data@ + batch
    &&& post.offset == pre.offset
    &&& post.mode@ == pre.mode@
    &&& post.height == pre.height
    &&& post.width == pre.width
    &&& post.dirty == (pre.dirty || (batch.len() > 0 && pre.data@.len() < pre.offset
        + text_height_spec(pre.height as int)))
}

/// Relies on `String::push`: appends the character to the end of the string.
#[verifier::external_body]
fn push_char(s: &mut String, c: char)
    ensures
        final(s)@ == old(s)@.push(c),
{
    s.push(c);
}

impl State {
    /// Clamps `target` into `[0, max_offset]`, stores it, and marks the text
    /// region dirty exactly when the offset actually changed.
    fn update_offset(&mut self, target: usize)
        requires
            old(self).wf(),
        ensures
            final(self).wf(),
            frame(*old(self), *final(self)),
            final(self).mode@ == old(self).mode@,
            final(self).offset as int == clamp_offset(target as int, old(self).spec_max_offset()),
            final(self).dirty == (old(self).dirty || final(self).offset != old(self).offset),
    {
        let mo = self.max_offset();
        let new_offset = if target > mo {
            mo
        } else {
            target
        };
        if new_offset != self.offset {
            self.offset = new_offset;
            self.dirty = true;
        }
    }

    /// Scrolls up by `count` lines, saturating at the top.
    fn scroll_up(&mut self, count: usize)
        requires
            old(self).wf(),
        ensures
            final(self).wf(),
            frame(*old(self), *final(self)),
            scrolled(*old(self), *final(self), Dir::Up(count)),
    {
        let target = if self.offset >= count {
            self.offset - count
        } else {
            0
        };
        self.update_offset(target);
    }

    /// Scrolls down by `count` lines, stopping at the bottom.
    fn scroll_down(&mut self, count: usize)
        requires
            old(self).wf(),
        ensures
            final(self).wf(),
            frame(*old(self), *final(self)),
            scrolled(*old(self), *final(self), Dir::Down(count)),
    {
        let len = self.data.len();
        proof {
            assert(self.spec_max_offset() <= len);
        }
        let target = if count <= usize::MAX - self.offset {
            self.offset + count
        } else {
            usize::MAX
        };
        self.update_offset(target);
    }

    /// Scrolls up by half a screen.
    fn scroll_half_up(&mut self)
        requires
            old(self).wf(),
        ensures
            final(self).wf(),
            frame(*old(self), *final(self)),
            scrolled(*old(self), *final(self), Dir::HalfPageUp),
    {
        let count = self.height / 2;
        let target = if self.offset >= count {
            self.offset - count
        } else {
            0
        };
        self.update_offset(target);
    }

    /// Scrolls down by half a screen.
    fn scroll_half_down(&mut self)
        requires
            old(self).wf(),
        ensures
            final(self).wf(),
            frame(*old(self), *final(self)),
            scrolled(*old(self), *final(self), Dir::HalfPageDown),
    {
        let count = self.height / 2;
        let len = self.data.len();
        proof {
            assert(self.spec_max_offset() <= len);
        }
        let target = if count <= usize::MAX - self.offset {
            self.offset + count
        } else {
            usize::MAX
        };
        self.update_offset(target);
    }

    /// Scrolls to the bottom of the buffer.
    fn scroll_bottom(&mut self)
        requires
            old(self).wf(),
        ensures
            final(self).wf(),
            frame(*old(self), *final(self)),
            scrolled(*old(self), *final(self), Dir::Bottom),
    {
        let target = self.data.len();
        self.update_offset(target);
    }

    /// Adopts freshly queried terminal dimensions.  The offset is re-clamped
    /// into the new `[0, max_offset]`, and the text region is marked dirty
    /// whenever the dimensions or the offset changed, since either changes
    /// what the viewport shows.
    pub fn set_viewport(&mut self, width: usize, height: usize)
        requires
            old(self).wf(),
            width >= 1,
            height >= 1,
        ensures
            final(self).wf(),
            final(self).width == width,
            final(self).height == height,
            final(self).data == old(self).data,
            final(self).mode@ == old(self).mode@,
            final(self).offset as int == clamp_offset(
                old(self).offset as int,
                max_offset_spec(old(self).data@.len() as int, height as int),
            ),
            final(self).dirty == (old(self).dirty || final(self).offset != old(self).offset
                || width != old(self).width || height != old(self).height),
    {
        let changed = width != self.width || height != self.height;
        self.width = width;
        self.height = height;
        let mo = self.max_offset();
        if self.offset > mo {
            self.offset = mo;
            self.dirty = true;
        }
        if changed {
            self.dirty = true;
        }
    }

    /// Applies one scroll command.
    pub fn scroll(&mut self, dir: Dir)
        requires
            old(self).wf(),
        ensures
            final(self).wf(),
            frame(*old(self), *final(self)),
            scrolled(*old(self), *final(self), dir),
    {
        match dir {
            Dir::Up(count) => self.scroll_up(count),
            Dir::Down(count) => self.scroll_down(count),
            Dir::HalfPageDown => self.scroll_half_down(),
            Dir::HalfPageUp => self.scroll_half_up(),
            Dir::Top => self.update_offset(0),
            Dir::Bottom => self.scroll_bottom(),
        }
    }

    /// The index of the first line at or after `starting_at` that contains
    /// `search_text`, scanning forward only (no wraparound).
    pub fn next_occurrence_offset(&self, search_text: &str, starting_at: usize) -> (r: Option<
        usize,
    >)
        ensures
            match r {
                Some(i) => starting_at <= i < self.data@.len() && first_line_match(
                    lines_view(self.data@),
                    search_text@,
                    starting_at as int,
                ) == Some(i as int),
                None => first_line_match(
                    lines_view(self.data@),
                    search_text@,
                    starting_at as int,
                ) is None,
            },
    {
        search::find_line_from(&self.data, search_text, starting_at)
    }

    /// Jumps to the next line after the current offset that contains the
    /// active term, if there is an active term and such a line.
    fn next_search_result(&mut self)
        requires
            old(self).wf(),
            old(self).mode@ is Viewing,
        ensures
            final(self).wf(),
            frame(*old(self), *final(self)),
            match old(self).mode@ {
                ModeView::Viewing(Some(t)) => searched_next(*old(self), *final(self), t),
                _ => unchanged_view(*old(self), *final(self)),
            },
    {
        let term_opt: Option<String> = match &self.mode {
            Mode::Viewing(Some(t)) => Some(t.clone()),
            _ => None,
        };
        match term_opt {
            None => {},
            Some(term) => {
                self.dirty = true;
                if self.offset < usize::MAX {
                    let found = self.next_occurrence_offset(term.as_str(), self.offset + 1);
                    match found {
                        Some(i) => {
                            self.offset = i;
                        },
                        None => {},
                    }
                } else {
                    let len = self.data.len();
                    proof {
                        assert(lines_view(self.data@).len() == len);
                        assert(first_line_match(lines_view(self.data@), term@, self.offset + 1)
                            is None);
                    }
                }
            },
        }
    }

    /// Leaves searching mode, confirming the typed input.
    fn confirm_search(&mut self)
        requires
            old(self).wf(),
            old(self).mode@ is Searching,
        ensures
            final(self).wf(),
            frame(*old(self), *final(self)),
            match old(self).mode@ {
                ModeView::Searching(input) => confirmed(*old(self), *final(self), input),
                _ => false,
            },
    {
        self.dirty = true;
        let input: String = match &self.mode {
            Mode::Searching(s) => s.clone(),
            Mode::Viewing(_) => unreached(),
        };
        if input.unicode_len() == 0 {
            self.mode = Mode::Viewing(None);
        } else {
            let found = self.next_occurrence_offset(input.as_str(), self.offset);
            match found {
                Some(i) => {
                    self.offset = i;
                    self.mode = Mode::Viewing(Some(input));
                },
                None => {
                    self.mode = Mode::Viewing(None);
                },
            }
        }
    }

    /// Appends one character to the search input.
    fn enter_search_char(&mut self, c: char)
        requires
            old(self).wf(),
            old(self).mode@ is Searching,
        ensures
            final(self).wf(),
            frame(*old(self), *final(self)),
            final(self).offset == old(self).offset,
            final(self).dirty == old(self).dirty,
            match old(self).mode@ {
                ModeView::Searching(input) => final(self).mode@ == ModeView::Searching(
                    input.push(c),
                ),
                _ => false,
            },
    {
        let mut input: String = match &self.mode {
            Mode::Searching(s) => s.clone(),
            Mode::Viewing(_) => unreached(),
        };
        push_char(&mut input, c);
        self.mode = Mode::Searching(input);
    }

    /// Deletes the last character of the search input; a no-op when the
    /// input is already empty.
    fn remove_search_char(&mut self)
        requires
            old(self).wf(),
            old(self).mode@ is Searching,
        ensures
            final(self).wf(),
            frame(*old(self), *final(self)),
            final(self).offset == old(self).offset,
            final(self).dirty == old(self).dirty,
            match old(self).mode@ {
                ModeView::Searching(input) => final(self).mode@ == ModeView::Searching(
                    if input.len() == 0 {
                        input
                    } else {
                        input.drop_last()
                    },
                ),
                _ => false,
            },
    {
        let input: String = match &self.mode {
            Mode::Searching(s) => s.clone(),
            Mode::Viewing(_) => unreached(),
        };
        let n = input.unicode_len();
        if n > 0 {
            let shorter = input.as_str().substring_char(0, n - 1).to_owned();
            proof {
                assert(shorter@ =~= input@.drop_last());
            }
            self.mode = Mode::Searching(shorter);
        }
    }

    /// Interprets one key press in the current mode and applies its command.
    /// Returns true exactly when the press quits the pager.
    pub fn handle_key(&mut self, key: Key) -> (quit: bool)
        requires
            old(self).wf(),
        ensures
            final(self).wf(),
            step_post(*old(self), *final(self), key, quit),
    {
        let cmd = Cmd::from_key(&self.mode, key);
        match cmd {
            Cmd::View(view_cmd) => {
                match view_cmd {
                    ViewCmd::Quit => {
                        return true;
                    },
                    ViewCmd::Scroll(d) => self.scroll(d),
                    ViewCmd::StartSearching => {
                        self.mode = Mode::Searching(String::new());
                        proof {
                            assert(self.mode@ == ModeView::Searching(Seq::<char>::empty()));
                        }
                    },
                    ViewCmd::NextSearchResult => self.next_search_result(),
                    ViewCmd::Noop => {},
                }
                false
            },
            Cmd::Search(search_cmd) => {
                match search_cmd {
                    SearchCmd::Confirm => self.confirm_search(),
                    SearchCmd::EnterText(c) => self.enter_search_char(c),
                    SearchCmd::RemoveChar => self.remove_search_char(),
                    SearchCmd::Noop => {},
                }
                false
            },
        }
    }

    /// Appends a batch of lines at the tail of the buffer.  The offset never
    /// moves; the text region is marked dirty only when a non-empty batch
    /// lands inside the visible rows.
    pub fn append(&mut self, batch: Vec<String>)
        requires
            old(self).wf(),
        ensures
            final(self).wf(),
            append_post(*old(self), *final(self), batch@),
    {
        let old_len = self.data.len();
        let grew = batch.len() > 0;
        let mut b = batch;
        self.data.append(&mut b);
        if grew && old_len - self.offset < self.height - 1 {
            self.dirty = true;
        }
    }

    /// Consumes one event: a batch is appended, a key press is handled.
    /// Returns true exactly when the event quits the pager.
    pub fn update(&mut self, event: Event) -> (quit: bool)
        requires
            old(self).wf(),
        ensures
            final(self).wf(),
            match event {
                Event::MoreData(batch) => !quit && append_post(
                    *old(self),
                    *final(self),
                    batch@,
                ),
                Event::Key(k) => step_post(*old(self), *final(self), k, quit),
            },
    {
        match event {
            Event::MoreData(batch) => {
                self.append(batch);
                false
            },
            Event::Key(k) => self.handle_key(k),
        }
    }

    /// Records that the text region has been fully redrawn.
    pub fn clear_dirty(&mut self)
        requires
            old(self).wf(),
        ensures
            final(self).wf(),
            frame(*old(self), *final(self)),
            final(self).offset == old(self).offset,
            final(self).mode@ == old(self).mode@,
            !final(self).dirty,
    {
        self.dirty = false;
    }
}

} // verus!
