//! What one render must show, computed as plain data.
//!
//! The state machine decides the contents of every visible text row and of
//! the status line; the terminal shell only styles and writes them.  A row is
//! a list of [`Segment`]s: runs of characters that are either plain or
//! highlighted (every highlighted run is exactly one occurrence of the active
//! search term).  Each row ends in a padding segment of spaces so that a
//! narrower render fully overwrites a previous, wider one.  Rows past the end
//! of the buffer show a single `~` filler glyph.

use vstd::prelude::*;

use crate::mode::{Mode, ModeView};
use crate::numfmt::{
    dec_rep, lemma_dec_rep_len, lemma_spaces, make_spaces, pad_left, spaces, u128_to_string,
    usize_to_string,
};
use crate::search::{
    contains_pat, find_in_line, first_match_from, lemma_first_match_from, lines_view, match_at,
};
use crate::state::State;

verus! {

/// A run of characters of one row, highlighted or plain.
pub struct Segment {
    pub text: String,
    pub highlight: bool,
}

/// The mathematical value of a segment.
pub open spec fn seg_view(s: Segment) -> (Seq<char>, bool) {
    (s.text@, s.highlight)
}

/// The mathematical value of a row of segments.
pub open spec fn segs_view(segs: Seq<Segment>) -> Seq<(Seq<char>, bool)> {
    segs.map_values(|s: Segment| seg_view(s))
}

/// A line split at every occurrence of `pat`, scanning from the left: plain
/// text between occurrences, each occurrence itself as a highlighted piece.
/// Concatenating the pieces gives the line back.
pub open spec fn seg_split(line: Seq<char>, pat: Seq<char>) -> Seq<(Seq<char>, bool)>
    decreases line.len(),
    via seg_split_decreases
{
    if pat.len() == 0 {
        seq![(line, false)]
    } else {
        match first_match_from(line, pat, 0) {
            None => seq![(line, false)],
            Some(i) => seq![(line.subrange(0, i), false), (pat, true)] + seg_split(
                line.subrange(i + pat.len() as int, line.len() as int),
                pat,
            ),
        }
    }
}

#[via_fn]
proof fn seg_split_decreases(line: Seq<char>, pat: Seq<char>) {
    if pat.len() > 0 {
        lemma_first_match_from(line, pat, 0);
    }
}

/// The concatenation of the text of all pieces of a row.
pub open spec fn segs_text(segs: Seq<(Seq<char>, bool)>) -> Seq<char>
    decreases segs.len(),
{
    if segs.len() == 0 {
        Seq::empty()
    } else {
        segs[0].0 + segs_text(segs.drop_first())
    }
}

proof fn lemma_segs_text_concat(a: Seq<(Seq<char>, bool)>, b: Seq<(Seq<char>, bool)>)
    ensures
        segs_text(a + b) == segs_text(a) + segs_text(b),
    decreases a.len(),
{
    if a.len() == 0 {
        assert(a + b =~= b);
        assert(segs_text(a) + segs_text(b) =~= segs_text(b));
    } else {
        assert((a + b).drop_first() =~= a.drop_first() + b);
        lemma_segs_text_concat(a.drop_first(), b);
        assert((a + b)[0] == a[0]);
        assert(a[0].0 + (segs_text(a.drop_first()) + segs_text(b)) =~= (a[0].0 + segs_text(
            a.drop_first(),
        )) + segs_text(b));
    }
}

/// Law: splitting a line for highlighting loses nothing and invents
/// nothing.  The pieces concatenate back to exactly the line, every
/// highlighted piece is exactly the search term, and no plain piece
/// contains the term.
pub proof fn lemma_seg_split_faithful(line: Seq<char>, pat: Seq<char>)
    requires
        pat.len() > 0,
    ensures
        segs_text(seg_split(line, pat)) == line,
        forall|k: int|
            0 <= k < seg_split(line, pat).len() && (#[trigger] seg_split(line, pat)[k]).1
                ==> seg_split(line, pat)[k].0 == pat,
        forall|k: int|
            0 <= k < seg_split(line, pat).len() && !(#[trigger] seg_split(line, pat)[k]).1
                ==> !contains_pat(seg_split(line, pat)[k].0, pat),
    decreases line.len(),
{
    lemma_first_match_from(line, pat, 0);
    match first_match_from(line, pat, 0) {
        None => {
            let segs = seg_split(line, pat);
            assert(segs =~= seq![(line, false)]);
            assert(segs_text(segs.drop_first()) =~= Seq::<char>::empty());
            assert(segs_text(segs) =~= line);
            if contains_pat(line, pat) {
                let j = choose|j: int| match_at(line, pat, j);
                assert(!match_at(line, pat, j));
            }
        },
        Some(i) => {
            let rest = line.subrange(i + pat.len() as int, line.len() as int);
            let prefix = line.subrange(0, i);
            let head = seq![(prefix, false), (pat, true)];
            let tail = seg_split(rest, pat);
            lemma_seg_split_faithful(rest, pat);
            lemma_segs_text_concat(head, tail);
            // the pieces concatenate back to the line
            assert(segs_text(Seq::<(Seq<char>, bool)>::empty()) =~= Seq::<char>::empty());
            assert(head.drop_first() =~= seq![(pat, true)]);
            assert(head.drop_first().drop_first() =~= Seq::<(Seq<char>, bool)>::empty());
            assert(segs_text(head.drop_first()) =~= pat);
            assert(segs_text(head) == prefix + pat);
            assert(line.subrange(i, i + pat.len() as int) == pat);
            assert((prefix + pat) + rest =~= line);
            assert(segs_text(seg_split(line, pat)) == line);
            // no occurrence hides in the prefix before the first match
            if contains_pat(prefix, pat) {
                let j = choose|j: int| match_at(prefix, pat, j);
                assert(line.subrange(j, j + pat.len() as int) =~= prefix.subrange(
                    j,
                    j + pat.len() as int,
                ));
                assert(match_at(line, pat, j));
            }
            // every piece is either the head's or, shifted, the tail's
            assert forall|k: int|
                0 <= k < seg_split(line, pat).len() && (#[trigger] seg_split(line, pat)[k]).1
                implies seg_split(line, pat)[k].0 == pat by {
                if k >= 2 {
                    assert(seg_split(line, pat)[k] == tail[k - 2]);
                }
            }
            assert forall|k: int|
                0 <= k < seg_split(line, pat).len() && !(#[trigger] seg_split(line, pat)[k]).1
                implies !contains_pat(seg_split(line, pat)[k].0, pat) by {
                if k >= 2 {
                    assert(seg_split(line, pat)[k] == tail[k - 2]);
                } else {
                    assert(seg_split(line, pat)[k] == (prefix, false));
                }
            }
        },
    }
}

/// How many spaces pad a row whose visible content has `content_len`
/// characters: up to the next multiple of the width, so every rendered row
/// fills whole terminal rows exactly.  A line already ending on a row
/// boundary needs none; an empty line still gets one full blank row.
pub open spec fn pad_width(content_len: int, width: int) -> int {
    if content_len > 0 && content_len % width == 0 {
        0
    } else {
        width - (content_len % width)
    }
}

/// The segments of one rendered row: the content (split for highlighting
/// when a term is active) followed by its padding spaces.
pub open spec fn row_spec(content: Seq<char>, hl: Option<Seq<char>>, width: int) -> Seq<
    (Seq<char>, bool),
> {
    let base = match hl {
        Some(p) => seg_split(content, p),
        None => seq![(content, false)],
    };
    base.push((spaces(pad_width(content.len() as int, width)), false))
}

/// The active term carried by an optional borrowed string.
pub open spec fn opt_term_view(hl: Option<&String>) -> Option<Seq<char>> {
    match hl {
        Some(p) => Some(p@),
        None => None,
    }
}

/// Splits `line` at every occurrence of `pat`, leftmost first.
pub fn split_line(line: &str, pat: &str) -> (segs: Vec<Segment>)
    requires
        pat@.len() > 0,
    ensures
        segs_view(segs@) == seg_split(line@, pat@),
    decreases line@.len(),
{
    proof {
        lemma_first_match_from(line@, pat@, 0);
    }
    let found = find_in_line(line, pat);
    match found {
        None => {
            let mut v: Vec<Segment> = Vec::new();
            v.push(Segment { text: line.to_owned(), highlight: false });
            proof {
                assert(segs_view(v@) =~= seg_split(line@, pat@));
            }
            v
        },
        Some(i) => {
            let line_len = line.unicode_len();
            let pat_len = pat.unicode_len();
            let prefix = line.substring_char(0, i).to_owned();
            let rest_str = line.substring_char(i + pat_len, line_len);
            let mut rest = split_line(rest_str, pat);
            let mut v: Vec<Segment> = Vec::new();
            v.push(Segment { text: prefix, highlight: false });
            v.push(Segment { text: pat.to_owned(), highlight: true });
            v.append(&mut rest);
            proof {
                assert(segs_view(v@) =~= seg_split(line@, pat@));
            }
            v
        },
    }
}

/// The segments of one row showing `line`, highlighted against the active
/// term `hl`, padded for a terminal `width` columns wide.
pub fn render_row(line: &str, hl: Option<&String>, width: usize) -> (segs: Vec<Segment>)
    requires
        width >= 1,
        match hl {
            Some(p) => p@.len() > 0,
            None => true,
        },
    ensures
        segs_view(segs@) == row_spec(line@, opt_term_view(hl), width as int),
{
    let mut v: Vec<Segment> = match hl {
        Some(p) => split_line(line, p.as_str()),
        None => {
            let mut v: Vec<Segment> = Vec::new();
            v.push(Segment { text: line.to_owned(), highlight: false });
            v
        },
    };
    let n = line.unicode_len();
    let pad = if n > 0 && n % width == 0 {
        0
    } else {
        width - (n % width)
    };
    v.push(Segment { text: make_spaces(pad), highlight: false });
    proof {
        assert(segs_view(v@) =~= row_spec(line@, opt_term_view(hl), width as int));
    }
    v
}

/// The percentage shown in the status line: how far down the scrollable
/// range the offset is, with a divisor of one when everything fits on one
/// screen.  Integer arithmetic, truncating.
pub open spec fn percent_spec(offset: int, max_off: int) -> int {
    (offset * 100) / (if max_off == 0 {
        1
    } else {
        max_off
    })
}

/// The column the terminal cursor sits in while a search is typed: just
/// after the indicator and the typed text (both one-based).
pub open spec fn cursor_col_spec(input_len: int) -> int {
    if input_len + 2 <= usize::MAX {
        input_len + 2
    } else {
        usize::MAX as int
    }
}

impl State {
    /// What text row `i` of the viewport shows: the buffered line there, or
    /// the `~` filler glyph past the end of the buffer.
    pub open spec fn spec_row_content(&self, i: int) -> Seq<char> {
        if self.offset + i < self.data@.len() {
            lines_view(self.data@)[self.offset + i]
        } else {
            seq!['~']
        }
    }

    /// The status line text: `/` plus the typed input while searching, or
    /// the scroll percentage and the line count while viewing.
    pub open spec fn spec_status(&self) -> Seq<char> {
        match self.mode@ {
            ModeView::Searching(input) => seq!['/'] + input,
            ModeView::Viewing(_) => seq![' '] + pad_left(
                dec_rep(percent_spec(self.offset as int, self.spec_max_offset())),
                3,
            ) + "% of "@ + dec_rep(self.data@.len() as int) + " lines"@,
        }
    }

    /// The rows of the text region for one full redraw, top to bottom.
    pub fn render_rows(&self) -> (rows: Vec<Vec<Segment>>)
        requires
            self.wf(),
        ensures
            rows@.len() == self.spec_text_height(),
            forall|i: int|
                0 <= i < rows@.len() ==> segs_view(rows@[i]@) == row_spec(
                    self.spec_row_content(i),
                    self.mode.spec_active_term(),
                    self.width as int,
                ),
    {
        let th = self.height - 1;
        let len = self.data.len();
        let hl: Option<&String> = match &self.mode {
            Mode::Viewing(Some(t)) => Some(t),
            _ => None,
        };
        proof {
            assert(opt_term_view(hl) == self.mode.spec_active_term());
        }
        let mut rows: Vec<Vec<Segment>> = Vec::new();
        let mut r: usize = 0;
        while r < th
            invariant
                self.wf(),
                th == self.spec_text_height(),
                len == self.data@.len(),
                opt_term_view(hl) == self.mode.spec_active_term(),
                match hl {
                    Some(p) => p@.len() > 0,
                    None => true,
                },
                rows@.len() == r,
                0 <= r <= th,
                forall|i: int|
                    0 <= i < r ==> segs_view(rows@[i]@) == row_spec(
                        self.spec_row_content(i),
                        self.mode.spec_active_term(),
                        self.width as int,
                    ),
            decreases th - r,
        {
            let row = if r < len && self.offset < len - r {
                render_row(self.data[self.offset + r].as_str(), hl, self.width)
            } else {
                proof {
                    reveal_strlit("~");
                    assert("~"@ =~= seq!['~']);
                }
                render_row("~", hl, self.width)
            };
            rows.push(row);
            r = r + 1;
        }
        rows
    }

    /// The status line text for this state.
    pub fn status_text(&self) -> (r: String)
        requires
            self.wf(),
        ensures
            r@ == self.spec_status(),
    {
        match &self.mode {
            Mode::Searching(input) => {
                let mut s = String::from_str("/");
                s.append(input.as_str());
                proof {
                    reveal_strlit("/");
                    assert(s@ =~= self.spec_status());
                }
                s
            },
            Mode::Viewing(_) => {
                let mo = self.max_offset();
                let divisor: u128 = if mo == 0 {
                    1
                } else {
                    mo as u128
                };
                let percent: u128 = (self.offset as u128) * 100 / divisor;
                proof {
                    assert(percent as int == percent_spec(
                        self.offset as int,
                        self.spec_max_offset(),
                    ));
                    lemma_dec_rep_len(percent as int);
                }
                let digits = u128_to_string(percent);
                let count = usize_to_string(self.data.len());
                let ghost p = percent as int;
                let ghost pad = 3 - dec_rep(p).len() as int;
                proof {
                    lemma_spaces(pad);
                }
                let mut s = String::from_str(" ");
                if percent < 10 {
                    s.append("  ");
                    proof {
                        reveal_strlit(" ");
                        reveal_strlit("  ");
                        assert(s@ =~= seq![' '] + spaces(pad));
                    }
                } else if percent < 100 {
                    s.append(" ");
                    proof {
                        reveal_strlit(" ");
                        assert(s@ =~= seq![' '] + spaces(pad));
                    }
                } else {
                    proof {
                        reveal_strlit(" ");
                        assert(s@ =~= seq![' '] + spaces(pad));
                    }
                }
                s.append(digits.as_str());
                proof {
                    assert(s@ =~= seq![' '] + pad_left(dec_rep(p), 3));
                }
                s.append("% of ");
                s.append(count.as_str());
                s.append(" lines");
                proof {
                    reveal_strlit("% of ");
                    reveal_strlit(" lines");
                    assert(s@ =~= self.spec_status());
                }
                s
            },
        }
    }

    /// Where the terminal cursor belongs: hidden while viewing, at the end
    /// of the typed input on the status row (one-based column and row) while
    /// searching.
    pub fn cursor_pos(&self) -> (r: Option<(usize, usize)>)
        requires
            self.wf(),
        ensures
            match self.mode@ {
                ModeView::Viewing(_) => r is None,
                ModeView::Searching(input) => {
                    &&& r is Some
                    &&& (r->0).0 as int == cursor_col_spec(input.len() as int)
                    &&& (r->0).1 == self.height
                },
            },
    {
        match &self.mode {
            Mode::Viewing(_) => None,
            Mode::Searching(input) => {
                let l = input.unicode_len();
                let col = if l <= usize::MAX - 2 {
                    l + 2
                } else {
                    usize::MAX
                };
                Some((col, self.height))
            },
        }
    }
}

} // verus!
