//! The motion engine: each motion is a pure function of the document
//! content and the current cursor position, returning the new position.
//! Motions never fail; an out-of-range intent clamps to the nearest valid
//! position.

use vstd::prelude::*;
use crate::chars::{whitespace_char, alnum_char, ascii_punct_char, is_whitespace_char,
    is_alnum_char, is_ascii_punct_char};
use crate::document::Document;
use crate::lines::{line_of, line_start, line_len, newline_count, lemma_pos_in_line,
    lemma_line_len_pos, lemma_line_start_props};

verus! {

/// First position at or after `i` whose character is not whitespace.
pub open spec fn skip_ws_right(s: Seq<char>, i: int) -> int
    decreases s.len() - i,
        when 0 <= i <= s.len()
{
    if i >= s.len() || !whitespace_char(s[i]) {
        i
    } else {
        skip_ws_right(s, i + 1)
    }
}

/// First position at or after `i` whose character is not ASCII punctuation.
pub open spec fn skip_punct_right(s: Seq<char>, i: int) -> int
    decreases s.len() - i,
        when 0 <= i <= s.len()
{
    if i >= s.len() || !ascii_punct_char(s[i]) {
        i
    } else {
        skip_punct_right(s, i + 1)
    }
}

/// First position at or after `i` whose character is not alphanumeric.
pub open spec fn skip_alnum_right(s: Seq<char>, i: int) -> int
    decreases s.len() - i,
        when 0 <= i <= s.len()
{
    if i >= s.len() || !alnum_char(s[i]) {
        i
    } else {
        skip_alnum_right(s, i + 1)
    }
}

/// First position at or below `i` with no whitespace just before it.
pub open spec fn skip_ws_left(s: Seq<char>, i: int) -> int
    decreases i,
        when 0 <= i <= s.len()
{
    if i <= 0 || !whitespace_char(s[i - 1]) {
        i
    } else {
        skip_ws_left(s, i - 1)
    }
}

/// First position at or below `i` with no ASCII punctuation just before it.
pub open spec fn skip_punct_left(s: Seq<char>, i: int) -> int
    decreases i,
        when 0 <= i <= s.len()
{
    if i <= 0 || !ascii_punct_char(s[i - 1]) {
        i
    } else {
        skip_punct_left(s, i - 1)
    }
}

/// First position at or below `i` with no alphanumeric just before it.
pub open spec fn skip_alnum_left(s: Seq<char>, i: int) -> int
    decreases i,
        when 0 <= i <= s.len()
{
    if i <= 0 || !alnum_char(s[i - 1]) {
        i
    } else {
        skip_alnum_left(s, i - 1)
    }
}

/// Where a word-right motion lands: skip whitespace, then one contiguous
/// run of ASCII punctuation, or, when there is none, one contiguous
/// alphanumeric run.
pub open spec fn word_right_pos(s: Seq<char>, i: int) -> int {
    let a = skip_ws_right(s, i);
    let b = skip_punct_right(s, a);
    if b > a {
        b
    } else {
        skip_alnum_right(s, a)
    }
}

/// The mirror of [`word_right_pos`], scanning backward.
pub open spec fn word_left_pos(s: Seq<char>, i: int) -> int {
    let a = skip_ws_left(s, i);
    let b = skip_punct_left(s, a);
    if b < a {
        b
    } else {
        skip_alnum_left(s, a)
    }
}

/// Clamp a column into a line whose displayed width (without the trailing
/// newline) is `visible`: columns past the end land on the last displayed
/// character, or on the line start when the line is empty.
pub open spec fn clamp_col(visible: int, col: int) -> int {
    if col >= visible {
        if visible == 0 {
            0
        } else {
            visible - 1
        }
    } else {
        col
    }
}

/// Where a line-up motion lands: the same column one line higher, clamped
/// into the shorter line; the document start when already on line 0.
pub open spec fn line_up_pos(s: Seq<char>, i: int) -> int {
    let l = line_of(s, i);
    if l > 0 {
        let col = i - line_start(s, l);
        line_start(s, l - 1) + clamp_col(line_len(s, l - 1) - 1, col)
    } else {
        0
    }
}

/// Where a line-down motion lands: the same column one line lower, clamped;
/// the document end when on one of the last two lines (the final line break
/// opens an empty last line that the motion skips past).
pub open spec fn line_down_pos(s: Seq<char>, i: int) -> int {
    let l = line_of(s, i);
    if newline_count(s) >= 1 && l < newline_count(s) - 1 {
        let col = i - line_start(s, l);
        line_start(s, l + 1) + clamp_col(line_len(s, l + 1) - 1, col)
    } else {
        s.len() as int
    }
}

/// `n` successive line-up motions.
pub open spec fn line_up_n(s: Seq<char>, i: int, n: nat) -> int
    decreases n,
{
    if n == 0 {
        i
    } else {
        line_up_pos(s, line_up_n(s, i, (n - 1) as nat))
    }
}

/// `n` successive line-down motions.
pub open spec fn line_down_n(s: Seq<char>, i: int, n: nat) -> int
    decreases n,
{
    if n == 0 {
        i
    } else {
        line_down_pos(s, line_down_n(s, i, (n - 1) as nat))
    }
}

/// One position right, clamped to the document end.
pub fn move_char_right(doc: &Document, pos: usize) -> (r: usize)
    requires
        pos <= doc@.len(),
    ensures
        r == if pos < doc@.len() {
            pos + 1
        } else {
            pos as int
        },
{
    if pos < doc.len_chars() {
        pos + 1
    } else {
        pos
    }
}

/// One position left, clamped to the document start.
pub fn move_char_left(doc: &Document, pos: usize) -> (r: usize)
    requires
        pos <= doc@.len(),
    ensures
        r == if pos > 0 {
            pos - 1
        } else {
            0int
        },
{
    if pos > 0 {
        pos - 1
    } else {
        0
    }
}

/// Word motion to the right; a no-op at the document end.
pub fn move_word_right(doc: &Document, pos: usize) -> (r: usize)
    requires
        pos <= doc@.len(),
    ensures
        r == word_right_pos(doc@, pos as int),
        pos <= r <= doc@.len(),
{
    let ghost s = doc@;
    let mut p = pos;
    while p < doc.len_chars() && is_whitespace_char(doc.char_at(p))
        invariant
            pos <= p <= s.len(),
            s == doc@,
            skip_ws_right(s, p as int) == skip_ws_right(s, pos as int),
        decreases s.len() - p,
    {
        p = p + 1;
    }
    let a = p;
    assert(a == skip_ws_right(s, pos as int));
    while p < doc.len_chars() && is_ascii_punct_char(doc.char_at(p))
        invariant
            a <= p <= s.len(),
            s == doc@,
            skip_punct_right(s, p as int) == skip_punct_right(s, a as int),
        decreases s.len() - p,
    {
        p = p + 1;
    }
    assert(p == skip_punct_right(s, a as int));
    if p > a {
        p
    } else {
        while p < doc.len_chars() && is_alnum_char(doc.char_at(p))
            invariant
                a <= p <= s.len(),
                s == doc@,
                skip_alnum_right(s, p as int) == skip_alnum_right(s, a as int),
            decreases s.len() - p,
        {
            p = p + 1;
        }
        assert(p == skip_alnum_right(s, a as int));
        p
    }
}

/// Word motion to the left; a no-op at the document start.
pub fn move_word_left(doc: &Document, pos: usize) -> (r: usize)
    requires
        pos <= doc@.len(),
    ensures
        r == word_left_pos(doc@, pos as int),
        r <= pos,
{
    let ghost s = doc@;
    let mut p = pos;
    while p > 0 && is_whitespace_char(doc.char_at(p - 1))
        invariant
            0 <= p <= pos <= s.len(),
            s == doc@,
            skip_ws_left(s, p as int) == skip_ws_left(s, pos as int),
        decreases p,
    {
        p = p - 1;
    }
    let a = p;
    assert(a == skip_ws_left(s, pos as int));
    while p > 0 && is_ascii_punct_char(doc.char_at(p - 1))
        invariant
            0 <= p <= a <= s.len(),
            s == doc@,
            skip_punct_left(s, p as int) == skip_punct_left(s, a as int),
        decreases p,
    {
        p = p - 1;
    }
    assert(p == skip_punct_left(s, a as int));
    if p < a {
        p
    } else {
        while p > 0 && is_alnum_char(doc.char_at(p - 1))
            invariant
                0 <= p <= a <= s.len(),
                s == doc@,
                skip_alnum_left(s, p as int) == skip_alnum_left(s, a as int),
            decreases p,
        {
            p = p - 1;
        }
        assert(p == skip_alnum_left(s, a as int));
        p
    }
}

/// Line-up motion.
pub fn move_line_up(doc: &Document, pos: usize) -> (r: usize)
    requires
        pos <= doc@.len(),
    ensures
        r == line_up_pos(doc@, pos as int),
        r <= doc@.len(),
{
    let ghost s = doc@;
    let l = doc.char_to_line(pos);
    proof {
        lemma_pos_in_line(s, pos as int);
    }
    if l > 0 {
        let start = doc.line_to_char(l);
        let col = pos - start;
        proof {
            lemma_line_len_pos(s, l - 1);
            lemma_line_start_props(s, l as int);
            lemma_line_start_props(s, l - 1);
        }
        let prev_len = doc.line_len_chars(l - 1);
        let visible = prev_len - 1;
        let clamped = if col >= visible {
            if visible == 0 {
                0
            } else {
                visible - 1
            }
        } else {
            col
        };
        let prev_start = doc.line_to_char(l - 1);
        assert(prev_start + prev_len == start);
        prev_start + clamped
    } else {
        0
    }
}

/// Line-down motion.
pub fn move_line_down(doc: &Document, pos: usize) -> (r: usize)
    requires
        pos <= doc@.len(),
    ensures
        r == line_down_pos(doc@, pos as int),
        r <= doc@.len(),
{
    let ghost s = doc@;
    let total = doc.len_chars();
    let l = doc.char_to_line(pos);
    let lines = doc.line_count();
    proof {
        lemma_pos_in_line(s, pos as int);
    }
    if lines >= 2 && l < lines - 2 {
        let start = doc.line_to_char(l);
        let col = pos - start;
        proof {
            lemma_line_len_pos(s, l + 1);
            lemma_line_start_props(s, l + 2);
        }
        let next_len = doc.line_len_chars(l + 1);
        let visible = next_len - 1;
        let clamped = if col >= visible {
            if visible == 0 {
                0
            } else {
                visible - 1
            }
        } else {
            col
        };
        let next_start = doc.line_to_char(l + 1);
        assert(next_start + next_len == line_start(s, l + 2));
        assert(next_start + clamped < total);
        next_start + clamped
    } else {
        doc.len_chars()
    }
}

/// A word motion at the matching document edge is a no-op: word-right at
/// the end stays at the end, word-left at the start stays at zero.
pub proof fn lemma_word_motion_noop_at_edges(s: Seq<char>)
    ensures
        word_right_pos(s, s.len() as int) == s.len(),
        word_left_pos(s, 0) == 0,
{
}

} // verus!
