//! Trusted boundary around `ropey`: the rope that stores the document text.
//!
//! The rope's contents are modelled by the uninterpreted function
//! [`rope_chars`], a sequence of Unicode scalar values.  Each wrapper states,
//! over that model, what the corresponding `ropey` call does.  The crate is
//! built with ropey's line-break features disabled, so a line break is
//! exactly the character `'\n'`, matching the model in [`crate::lines`].

use vstd::prelude::*;
use crate::lines::{line_of, line_start, newline_count};

verus! {

#[verifier::external_type_specification]
#[verifier::external_body]
pub struct ExRope(ropey::Rope);

/// The characters held by a rope.
pub uninterp spec fn rope_chars(r: ropey::Rope) -> Seq<char>;

/// Number of bytes of the UTF-8 encoding of `c`.
pub open spec fn utf8_len_char(c: char) -> int {
    if (c as u32) < 0x80 {
        1
    } else if (c as u32) < 0x800 {
        2
    } else if (c as u32) < 0x10000 {
        3
    } else {
        4
    }
}

/// Number of bytes of the UTF-8 encoding of `s`.
pub open spec fn utf8_len(s: Seq<char>) -> int
    decreases s.len(),
{
    if s.len() == 0 {
        0
    } else {
        utf8_len_char(s[0]) + utf8_len(s.skip(1))
    }
}

/// The index of the character that contains byte `b` of the UTF-8 encoding
/// of `s`; the character count when `b` is the total byte length.
pub open spec fn char_index_of_byte(s: Seq<char>, b: int) -> int
    decreases s.len(),
{
    if s.len() == 0 || b < utf8_len_char(s[0]) {
        0
    } else {
        1 + char_index_of_byte(s.skip(1), b - utf8_len_char(s[0]))
    }
}

pub proof fn lemma_char_index_of_byte_le(s: Seq<char>, b: int)
    ensures
        0 <= char_index_of_byte(s, b) <= s.len(),
    decreases s.len(),
{
    if s.len() > 0 && b >= utf8_len_char(s[0]) {
        lemma_char_index_of_byte_le(s.skip(1), b - utf8_len_char(s[0]));
    }
}

pub proof fn lemma_char_index_of_byte_mono(s: Seq<char>, a: int, b: int)
    requires
        a <= b,
    ensures
        char_index_of_byte(s, a) <= char_index_of_byte(s, b),
    decreases s.len(),
{
    if s.len() > 0 && a >= utf8_len_char(s[0]) {
        lemma_char_index_of_byte_mono(s.skip(1), a - utf8_len_char(s[0]), b - utf8_len_char(s[0]));
    } else {
        lemma_char_index_of_byte_le(s, b);
    }
}

/// Relies on `ropey::Rope::from_str`: builds a rope holding exactly the
/// given text.
#[verifier::external_body]
pub(crate) fn rope_from_str(s: &str) -> (r: ropey::Rope)
    ensures
        rope_chars(r) == s@,
{
    ropey::Rope::from_str(s)
}

/// Relies on `ropey::Rope::len_chars`: the total character count.
#[verifier::external_body]
pub(crate) fn rope_len_chars(r: &ropey::Rope) -> (n: usize)
    ensures
        n == rope_chars(*r).len(),
{
    r.len_chars()
}

/// Relies on `ropey::Rope::len_lines`: one more than the number of line
/// breaks, which with ropey's line-break features disabled are exactly the
/// `'\n'` characters.
#[verifier::external_body]
pub(crate) fn rope_len_lines(r: &ropey::Rope) -> (n: usize)
    ensures
        n == newline_count(rope_chars(*r)) + 1,
{
    r.len_lines()
}

/// Relies on `ropey::Rope::char`: the character at a valid index.
#[verifier::external_body]
pub(crate) fn rope_char(r: &ropey::Rope, char_idx: usize) -> (c: char)
    requires
        char_idx < rope_chars(*r).len(),
    ensures
        c == rope_chars(*r)[char_idx as int],
{
    r.char(char_idx)
}

/// Relies on `ropey::Rope::char_to_line`: the line index of a character
/// position, i.e. the number of line breaks before it.
#[verifier::external_body]
pub(crate) fn rope_char_to_line(r: &ropey::Rope, char_idx: usize) -> (l: usize)
    requires
        char_idx <= rope_chars(*r).len(),
    ensures
        l == line_of(rope_chars(*r), char_idx as int),
{
    r.char_to_line(char_idx)
}

/// Relies on `ropey::Rope::line_to_char`: the character position where a
/// line begins; the text length for the index one past the last line.
#[verifier::external_body]
pub(crate) fn rope_line_to_char(r: &ropey::Rope, line_idx: usize) -> (i: usize)
    requires
        line_idx <= newline_count(rope_chars(*r)) + 1,
    ensures
        i == line_start(rope_chars(*r), line_idx as int),
{
    r.line_to_char(line_idx)
}

/// Relies on `ropey::Rope::byte_to_char`: the index of the character that
/// contains the given byte of the UTF-8 encoding.
#[verifier::external_body]
pub(crate) fn rope_byte_to_char(r: &ropey::Rope, byte_idx: usize) -> (i: usize)
    requires
        byte_idx <= utf8_len(rope_chars(*r)),
    ensures
        i == char_index_of_byte(rope_chars(*r), byte_idx as int),
{
    r.byte_to_char(byte_idx)
}

/// Relies on `ropey::Rope::insert`: splices a string into the rope at a
/// character index.
#[verifier::external_body]
pub(crate) fn rope_insert(r: &mut ropey::Rope, char_idx: usize, text: &str)
    requires
        char_idx <= rope_chars(*old(r)).len(),
    ensures
        rope_chars(*final(r)) == rope_chars(*old(r)).take(char_idx as int) + text@ + rope_chars(
            *old(r),
        ).skip(char_idx as int),
{
    r.insert(char_idx, text)
}

/// Relies on `ropey::Rope::insert_char`: inserts one character at a
/// character index.
#[verifier::external_body]
pub(crate) fn rope_insert_char(r: &mut ropey::Rope, char_idx: usize, ch: char)
    requires
        char_idx <= rope_chars(*old(r)).len(),
    ensures
        rope_chars(*final(r)) == rope_chars(*old(r)).take(char_idx as int) + seq![ch] + rope_chars(
            *old(r),
        ).skip(char_idx as int),
{
    r.insert_char(char_idx, ch)
}

/// Relies on `ropey::Rope::remove`: deletes a half-open character range.
#[verifier::external_body]
pub(crate) fn rope_remove(r: &mut ropey::Rope, start: usize, end: usize)
    requires
        start <= end <= rope_chars(*old(r)).len(),
    ensures
        rope_chars(*final(r)) == rope_chars(*old(r)).take(start as int) + rope_chars(*old(r)).skip(
            end as int,
        ),
{
    r.remove(start..end)
}

/// Relies on `ropey::Rope`'s `Display` impl: writes out exactly the text
/// the rope holds.
#[verifier::external_body]
pub(crate) fn rope_to_string(r: &ropey::Rope) -> (s: String)
    ensures
        s@ == rope_chars(*r),
{
    r.to_string()
}

} // verus!
