//! The library's laws: properties that hold of every state, proved once
//! here against the step relations of [`crate::state`].

use vstd::prelude::*;

use crate::cmd::Dir;
use crate::mode::ModeView;
use crate::search::{contains_pat, first_line_match, lemma_first_line_match, lines_view};
use crate::state::{
    append_post, confirmed, max_offset_spec, scroll_result, scrolled, searched_next,
    text_height_spec, State,
};

verus! {

/// Law: every scroll command lands inside `[0, max_offset]`, whatever the
/// buffer length, the terminal height and the prior offset.
pub proof fn lemma_scroll_result_bounded(offset: int, dir: Dir, len: int, height: int)
    requires
        len >= 0,
    ensures
        0 <= scroll_result(offset, dir, len, height),
        scroll_result(offset, dir, len, height) <= max_offset_spec(len, height),
{
}

/// Law: after any scroll command the state's offset lies inside
/// `[0, max_offset]`.
pub proof fn lemma_scroll_keeps_bounds(pre: State, post: State, dir: Dir)
    requires
        scrolled(pre, post, dir),
    ensures
        post.offset as int <= max_offset_spec(pre.data@.len() as int, pre.height as int),
{
}

/// Law: scrolling up by `n` and then down by `n`, from an offset far enough
/// from both boundaries that neither move clamps, returns exactly to the
/// starting offset.
pub proof fn lemma_up_down_round_trip(offset: usize, n: usize, len: int, height: int)
    requires
        n <= offset,
        offset as int <= max_offset_spec(len, height),
    ensures
        scroll_result(
            scroll_result(offset as int, Dir::Up(n), len, height),
            Dir::Down(n),
            len,
            height,
        ) == offset as int,
{
}

/// Law: `Top` always yields offset 0 and `Bottom` always yields
/// `max_offset`, regardless of the prior offset.
pub proof fn lemma_top_bottom(offset: int, len: int, height: int)
    requires
        len >= 0,
        height >= 1,
    ensures
        scroll_result(offset, Dir::Top, len, height) == 0,
        scroll_result(offset, Dir::Bottom, len, height) == max_offset_spec(len, height),
{
}

/// Law: confirming a search whose term occurs in exactly one line, at or
/// after the current offset, scrolls exactly there and makes the term the
/// active highlight.
pub proof fn lemma_confirm_moves_to_unique_match(pre: State, post: State, term: Seq<char>, i: int)
    requires
        confirmed(pre, post, term),
        term.len() > 0,
        0 <= i < pre.data@.len(),
        contains_pat(lines_view(pre.data@)[i], term),
        forall|j: int|
            0 <= j < pre.data@.len() && j != i ==> !contains_pat(lines_view(pre.data@)[j], term),
        pre.offset <= i,
    ensures
        post.offset == i,
        post.mode@ == ModeView::Viewing(Some(term)),
{
    let lv = lines_view(pre.data@);
    lemma_first_line_match(lv, term, pre.offset as int);
    match first_line_match(lv, term, pre.offset as int) {
        Some(i2) => {
            if i2 != i {
                assert(!contains_pat(lv[i2], term));
            }
        },
        None => {
            assert(!contains_pat(lv[i], term));
        },
    }
}

/// Law: confirming a search whose term occurs nowhere in the buffer leaves
/// the offset unchanged and clears the active highlight.
pub proof fn lemma_confirm_absent(pre: State, post: State, term: Seq<char>)
    requires
        confirmed(pre, post, term),
        term.len() > 0,
        forall|j: int|
            0 <= j < pre.data@.len() ==> !contains_pat(lines_view(pre.data@)[j], term),
    ensures
        post.offset == pre.offset,
        post.mode@ == ModeView::Viewing(None::<Seq<char>>),
{
    let lv = lines_view(pre.data@);
    lemma_first_line_match(lv, term, pre.offset as int);
    match first_line_match(lv, term, pre.offset as int) {
        Some(i2) => {
            assert(!contains_pat(lv[i2], term));
        },
        None => {},
    }
}

/// Law: once no occurrence of the active term lies strictly after the
/// current offset, "next match" finds nothing and does not move the offset.
pub proof fn lemma_next_match_past_last(pre: State, post: State, term: Seq<char>)
    requires
        searched_next(pre, post, term),
        forall|j: int|
            pre.offset < j < pre.data@.len() ==> !contains_pat(lines_view(pre.data@)[j], term),
    ensures
        post.offset == pre.offset,
{
    let lv = lines_view(pre.data@);
    lemma_first_line_match(lv, term, pre.offset + 1);
    match first_line_match(lv, term, pre.offset + 1) {
        Some(i2) => {
            assert(!contains_pat(lv[i2], term));
        },
        None => {},
    }
}

/// Law: whenever "next match" moves the offset at all, it moves it strictly
/// forward, onto a line that contains the term — so repeated presses reach
/// the last occurrence after finitely many steps and then stop moving.
pub proof fn lemma_next_match_advances(pre: State, post: State, term: Seq<char>)
    requires
        searched_next(pre, post, term),
        post.offset != pre.offset,
    ensures
        post.offset > pre.offset,
        contains_pat(lines_view(pre.data@)[post.offset as int], term),
{
    let lv = lines_view(pre.data@);
    lemma_first_line_match(lv, term, pre.offset + 1);
}

/// Law: appending a batch while scrolled far enough above the tail that the
/// new lines fall outside the visible rows neither moves the offset nor
/// forces a full redraw.
pub proof fn lemma_append_outside_viewport(pre: State, post: State, batch: Seq<String>)
    requires
        append_post(pre, post, batch),
        !pre.dirty,
        pre.offset + text_height_spec(pre.height as int) <= pre.data@.len(),
    ensures
        post.offset == pre.offset,
        !post.dirty,
{
}

} // verus!
