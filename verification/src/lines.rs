//! The line structure of a text: a text is a sequence of characters, and a
//! line boundary sits after every `'\n'`.  A text with `n` newlines has
//! `n + 1` lines; the last line has no trailing newline.

use vstd::prelude::*;

verus! {

/// Number of newline characters among the first `i` characters of `s`.
pub open spec fn newlines_before(s: Seq<char>, i: int) -> int
    decreases i,
{
    if i <= 0 {
        0
    } else {
        newlines_before(s, i - 1) + if 0 < i <= s.len() && s[i - 1] == '\n' {
            1int
        } else {
            0int
        }
    }
}

/// The line index (0-based) that character position `i` falls on.
pub open spec fn line_of(s: Seq<char>, i: int) -> int {
    newlines_before(s, i)
}

/// Total number of newline characters in `s`.
pub open spec fn newline_count(s: Seq<char>) -> int {
    newlines_before(s, s.len() as int)
}

/// Position just after the `l`-th line break at or after position `i`;
/// the length of `s` if fewer than `l` breaks remain.
pub open spec fn line_start_from(s: Seq<char>, i: int, l: int) -> int
    decreases s.len() - i,
        when 0 <= i <= s.len()
{
    if l <= 0 {
        i
    } else if i >= s.len() {
        s.len() as int
    } else if s[i] == '\n' {
        line_start_from(s, i + 1, l - 1)
    } else {
        line_start_from(s, i + 1, l)
    }
}

/// First character position of line `l`; the text length when `l` exceeds
/// the last line's index.
pub open spec fn line_start(s: Seq<char>, l: int) -> int {
    line_start_from(s, 0, l)
}

/// Length of line `l` in characters, counting its trailing newline.
/// The last line has no trailing newline.
pub open spec fn line_len(s: Seq<char>, l: int) -> int {
    line_start(s, l + 1) - line_start(s, l)
}

pub proof fn lemma_newlines_before_mono(s: Seq<char>, i: int, j: int)
    requires
        i <= j,
    ensures
        newlines_before(s, i) <= newlines_before(s, j) <= newlines_before(s, i) + (j - i),
    decreases j - i,
{
    if i < j {
        lemma_newlines_before_mono(s, i, j - 1);
    }
}

proof fn lemma_line_start_from_props(s: Seq<char>, i: int, l: int)
    requires
        0 <= i <= s.len(),
        0 <= l,
    ensures
        i <= line_start_from(s, i, l) <= s.len(),
        newlines_before(s, line_start_from(s, i, l)) <= newlines_before(s, i) + l,
        line_start_from(s, i, l) < s.len() ==> newlines_before(s, line_start_from(s, i, l))
            == newlines_before(s, i) + l,
        l > 0 && newlines_before(s, line_start_from(s, i, l)) == newlines_before(s, i) + l
            ==> line_start_from(s, i, l) > i && s[line_start_from(s, i, l) - 1] == '\n',
        forall|j: int| i <= j < line_start_from(s, i, l) ==> newlines_before(s, j)
            < newlines_before(s, i) + l,
    decreases s.len() - i,
{
    if l <= 0 || i >= s.len() {
    } else {
        if s[i] == '\n' {
            lemma_line_start_from_props(s, i + 1, l - 1);
        } else {
            lemma_line_start_from_props(s, i + 1, l);
        }
        assert(newlines_before(s, i + 1) == newlines_before(s, i) + if s[i] == '\n' {
            1int
        } else {
            0int
        });
    }
}

/// The basic facts about a line's start position.
pub proof fn lemma_line_start_props(s: Seq<char>, l: int)
    requires
        0 <= l,
    ensures
        0 <= line_start(s, l) <= s.len(),
        line_start(s, l) < s.len() ==> line_of(s, line_start(s, l)) == l,
        l > 0 && line_of(s, line_start(s, l)) == l ==> line_start(s, l) > 0
            && s[line_start(s, l) - 1] == '\n',
        line_of(s, line_start(s, l)) <= l,
        forall|j: int| 0 <= j < line_start(s, l) ==> line_of(s, j) < l,
{
    lemma_line_start_from_props(s, 0, l);
}

/// Line starts are ordered.
pub proof fn lemma_line_start_mono(s: Seq<char>, l: int, m: int)
    requires
        0 <= l <= m,
    ensures
        line_start(s, l) <= line_start(s, m),
{
    lemma_line_start_props(s, l);
    lemma_line_start_props(s, m);
    if line_start(s, m) < line_start(s, l) {
        // line_start(s, m) sits below line_start(s, l), so fewer than l
        // breaks precede it; but it either starts line m >= l or is the end.
        assert(line_of(s, line_start(s, m)) < l);
        if line_start(s, m) < s.len() {
            assert(line_of(s, line_start(s, m)) == m);
        } else {
            assert(line_start(s, l) <= s.len());
        }
    }
}

/// Every position lies between the start of its own line and the start of
/// the next one.
pub proof fn lemma_pos_in_line(s: Seq<char>, i: int)
    requires
        0 <= i <= s.len(),
    ensures
        line_start(s, line_of(s, i)) <= i <= line_start(s, line_of(s, i) + 1),
        i < s.len() ==> i < line_start(s, line_of(s, i) + 1),
        0 <= line_of(s, i) <= newline_count(s),
    decreases 0int,
{
    let l = line_of(s, i);
    lemma_newlines_before_mono(s, 0, i);
    lemma_newlines_before_mono(s, i, s.len() as int);
    lemma_line_start_props(s, l);
    lemma_line_start_props(s, l + 1);
    if line_start(s, l) > i {
        assert(line_of(s, i) < l);
    }
    if line_start(s, l + 1) <= i {
        if line_start(s, l + 1) < s.len() {
            lemma_newlines_before_mono(s, line_start(s, l + 1), i);
            assert(line_of(s, line_start(s, l + 1)) == l + 1);
        }
    }
    if i < s.len() && line_start(s, l + 1) == i {
        assert(line_of(s, line_start(s, l + 1)) == l + 1);
    }
}

/// A line other than the last ends in a newline and is at least one
/// character long.
pub proof fn lemma_line_len_pos(s: Seq<char>, l: int)
    requires
        0 <= l <= newline_count(s),
    ensures
        line_len(s, l) >= 0,
        l < newline_count(s) ==> line_len(s, l) >= 1 && s[line_start(s, l + 1) - 1] == '\n',
{
    lemma_line_start_mono(s, l, l + 1);
    lemma_line_start_props(s, l);
    lemma_line_start_props(s, l + 1);
    if l < newline_count(s) {
        if line_start(s, l + 1) < s.len() {
            assert(line_of(s, line_start(s, l + 1)) == l + 1);
        } else {
            lemma_newlines_before_mono(s, line_start(s, l + 1), s.len() as int);
            assert(line_of(s, line_start(s, l + 1)) == l + 1);
        }
        assert(line_start(s, l + 1) > 0 && s[line_start(s, l + 1) - 1] == '\n');
        if line_len(s, l) == 0 {
            // then line l itself would start just after the same newline,
            // contradicting that only l breaks precede its start
            assert(line_of(s, line_start(s, l)) == l + 1);
        }
    }
}

} // verus!
