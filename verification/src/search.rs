//! Literal, case-sensitive substring search over the line buffer.
//!
//! Matching is defined over character sequences.  A pattern matches a line at
//! position `i` when the characters of the line from `i` on start with the
//! pattern.  Searching the buffer scans forward line by line from a given
//! index (inclusive) and stops at the first line that contains the pattern;
//! there is no wraparound to the start of the buffer.

use vstd::prelude::*;

verus! {

/// The pattern `pat` occurs in `line` starting at character position `i`.
pub open spec fn match_at(line: Seq<char>, pat: Seq<char>, i: int) -> bool {
    &&& 0 <= i
    &&& i + pat.len() <= line.len()
    &&& line.subrange(i, i + pat.len() as int) == pat
}

/// The pattern occurs somewhere in the line.
pub open spec fn contains_pat(line: Seq<char>, pat: Seq<char>) -> bool {
    exists|i: int| match_at(line, pat, i)
}

/// The first position at or after `from` where `pat` occurs in `line`,
/// or `None` when there is no such position.
pub open spec fn first_match_from(line: Seq<char>, pat: Seq<char>, from: int) -> Option<int>
    decreases line.len() - from,
{
    if from < 0 || from + pat.len() > line.len() {
        None
    } else if pat.len() == 0 {
        Some(from)
    } else if match_at(line, pat, from) {
        Some(from)
    } else {
        first_match_from(line, pat, from + 1)
    }
}

/// `first_match_from` returns exactly the least match position at or after
/// `from`, and `None` exactly when no position at or after `from` matches.
pub proof fn lemma_first_match_from(line: Seq<char>, pat: Seq<char>, from: int)
    requires
        0 <= from,
    ensures
        match first_match_from(line, pat, from) {
            Some(i) => from <= i && match_at(line, pat, i) && forall|j: int|
                from <= j < i ==> !match_at(line, pat, j),
            None => forall|j: int| from <= j ==> !match_at(line, pat, j),
        },
    decreases line.len() - from,
{
    if from + pat.len() > line.len() {
        assert forall|j: int| from <= j implies !match_at(line, pat, j) by {
            assert(j + pat.len() >= from + pat.len());
        }
    } else if pat.len() == 0 {
        assert(line.subrange(from, from) =~= pat);
        assert(match_at(line, pat, from));
    } else if match_at(line, pat, from) {
    } else {
        lemma_first_match_from(line, pat, from + 1);
    }
}

/// The index of the first line at or after `from` that contains `pat`,
/// or `None` when no line from `from` to the end of the buffer does.
pub open spec fn first_line_match(lines: Seq<Seq<char>>, pat: Seq<char>, from: int) -> Option<
    int,
>
    decreases lines.len() - from,
{
    if from < 0 || from >= lines.len() {
        None
    } else if contains_pat(lines[from], pat) {
        Some(from)
    } else {
        first_line_match(lines, pat, from + 1)
    }
}

/// `first_line_match` returns exactly the least index of a containing line
/// at or after `from`, and `None` exactly when no such line exists.
pub proof fn lemma_first_line_match(lines: Seq<Seq<char>>, pat: Seq<char>, from: int)
    requires
        0 <= from,
    ensures
        match first_line_match(lines, pat, from) {
            Some(i) => from <= i < lines.len() && contains_pat(lines[i], pat) && forall|j: int|
                from <= j < i ==> !contains_pat(lines[j], pat),
            None => forall|j: int| from <= j < lines.len() ==> !contains_pat(lines[j], pat),
        },
    decreases lines.len() - from,
{
    if from >= lines.len() {
    } else if contains_pat(lines[from], pat) {
    } else {
        lemma_first_line_match(lines, pat, from + 1);
    }
}

/// The characters of each line of the buffer.
pub open spec fn lines_view(lines: Seq<String>) -> Seq<Seq<char>> {
    lines.map_values(|s: String| s@)
}

/// Does `pat` occur in `line` starting exactly at character position `at`?
pub fn match_at_exec(line: &str, pat: &str, at: usize) -> (r: bool)
    requires
        at + pat@.len() <= line@.len(),
    ensures
        r == match_at(line@, pat@, at as int),
{
    let line_len = line.unicode_len();
    let pat_len = pat.unicode_len();
    let mut k: usize = 0;
    while k < pat_len
        invariant
            at + pat@.len() <= line@.len(),
            line_len == line@.len(),
            pat_len == pat@.len(),
            0 <= k <= pat_len,
            forall|m: int| 0 <= m < k ==> line@[at + m] == pat@[m],
        decreases pat_len - k,
    {
        if line.get_char(at + k) != pat.get_char(k) {
            proof {
                let sub = line@.subrange(at as int, at + pat@.len() as int);
                assert(sub[k as int] == line@[at + k]);
                assert(sub != pat@);
            }
            return false;
        }
        k = k + 1;
    }
    proof {
        assert(line@.subrange(at as int, at + pat@.len() as int) =~= pat@);
    }
    true
}

/// The first position in `line` where `pat` occurs, scanning from the start.
pub fn find_in_line(line: &str, pat: &str) -> (r: Option<usize>)
    ensures
        match r {
            Some(i) => first_match_from(line@, pat@, 0) == Some(i as int),
            None => first_match_from(line@, pat@, 0) is None,
        },
{
    let line_len = line.unicode_len();
    let pat_len = pat.unicode_len();
    if pat_len > line_len {
        proof {
            lemma_first_match_from(line@, pat@, 0);
        }
        return None;
    }
    let end = line_len - pat_len;
    let mut i: usize = 0;
    loop
        invariant
            pat_len <= line_len,
            line_len == line@.len(),
            pat_len == pat@.len(),
            end == line_len - pat_len,
            0 <= i <= end,
            forall|j: int| 0 <= j < i ==> !match_at(line@, pat@, j),
        decreases end - i,
    {
        if match_at_exec(line, pat, i) {
            proof {
                lemma_first_match_from(line@, pat@, 0);
                let r = first_match_from(line@, pat@, 0);
                if r is None {
                    assert(!match_at(line@, pat@, i as int));
                } else {
                    let i2 = r->0;
                    if i2 < i {
                        assert(!match_at(line@, pat@, i2));
                    }
                    if i2 > i {
                        assert(!match_at(line@, pat@, i as int));
                    }
                }
            }
            return Some(i);
        }
        if i == end {
            proof {
                lemma_first_match_from(line@, pat@, 0);
                if first_match_from(line@, pat@, 0) is Some {
                    let i2 = first_match_from(line@, pat@, 0)->0;
                    assert(match_at(line@, pat@, i2));
                    assert(i2 + pat@.len() <= line@.len());
                    assert(!match_at(line@, pat@, i2));
                }
            }
            return None;
        }
        i = i + 1;
    }
}

/// Does `pat` occur anywhere in `line`?
pub fn line_contains(line: &str, pat: &str) -> (r: bool)
    ensures
        r == contains_pat(line@, pat@),
{
    let found = find_in_line(line, pat);
    proof {
        lemma_first_match_from(line@, pat@, 0);
        match first_match_from(line@, pat@, 0) {
            Some(i) => {
                assert(match_at(line@, pat@, i));
                assert(contains_pat(line@, pat@));
            },
            None => {
                if contains_pat(line@, pat@) {
                    let i = choose|i: int| match_at(line@, pat@, i);
                    assert(!match_at(line@, pat@, i));
                }
            },
        }
    }
    found.is_some()
}

/// The index of the first line at or after `from` that contains `pat`.
pub fn find_line_from(lines: &Vec<String>, pat: &str, from: usize) -> (r: Option<usize>)
    ensures
        match r {
            Some(i) => from <= i < lines@.len() && first_line_match(
                lines_view(lines@),
                pat@,
                from as int,
            ) == Some(i as int),
            None => first_line_match(lines_view(lines@), pat@, from as int) is None,
        },
{
    let n = lines.len();
    let ghost lv = lines_view(lines@);
    let mut i: usize = from;
    while i < n
        invariant
            n == lines@.len(),
            lv == lines_view(lines@),
            lv.len() == lines@.len(),
            from <= i,
            forall|j: int| from <= j < i ==> !contains_pat(lv[j], pat@),
        decreases n - i,
    {
        assert(lv[i as int] == lines@[i as int]@);
        if line_contains(lines[i].as_str(), pat) {
            proof {
                lemma_first_line_match(lv, pat@, from as int);
                let r = first_line_match(lv, pat@, from as int);
                if r is None {
                    assert(!contains_pat(lv[i as int], pat@));
                } else {
                    let i2 = r->0;
                    if i2 < i {
                        assert(!contains_pat(lv[i2], pat@));
                    }
                    if i2 > i {
                        assert(!contains_pat(lv[i as int], pat@));
                    }
                }
            }
            return Some(i);
        }
        i = i + 1;
    }
    proof {
        lemma_first_line_match(lv, pat@, from as int);
        if first_line_match(lv, pat@, from as int) is Some {
            let i2 = first_line_match(lv, pat@, from as int)->0;
            assert(!contains_pat(lv[i2], pat@));
        }
    }
    None
}

} // verus!
