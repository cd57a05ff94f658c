//! The document: rope-backed mutable text with character, line and byte
//! indexing.  Its mathematical model is the sequence of Unicode scalar
//! values it holds (`self@`); a line boundary is a `'\n'` character, so even
//! an empty document has one (empty) line.

use vstd::prelude::*;
use crate::lines::{line_of, line_start, line_len, newline_count, lemma_line_start_mono,
    lemma_line_start_props};
use crate::rope_text::{rope_chars, rope_from_str, rope_len_chars, rope_len_lines, rope_char,
    rope_char_to_line, rope_line_to_char, rope_byte_to_char, rope_insert, rope_insert_char,
    rope_remove, rope_to_string, utf8_len, char_index_of_byte};
use crate::strutil::string_push;

verus! {

/// Largest document size, in characters, that the editor accepts.  Keeping
/// lengths below this bound keeps every coordinate computation inside the
/// ranges of `usize` and `i32`.
pub const MAX_TEXT: usize = 0x4000_0000;

pub struct Document {
    rope: ropey::Rope,
}

impl View for Document {
    type V = Seq<char>;

    closed spec fn view(&self) -> Seq<char> {
        rope_chars(self.rope)
    }
}

impl Document {
    /// A document holding the given text.
    pub fn from_text(text: &str) -> (d: Document)
        ensures
            d@ == text@,
    {
        Document { rope: rope_from_str(text) }
    }

    /// An empty document.
    pub fn new() -> (d: Document)
        ensures
            d@ == Seq::<char>::empty(),
    {
        proof {
            reveal_strlit("");
            assert(""@ =~= Seq::<char>::empty());
        }
        Document { rope: rope_from_str("") }
    }

    /// Total length in characters.
    pub fn len_chars(&self) -> (n: usize)
        ensures
            n == self@.len(),
    {
        rope_len_chars(&self.rope)
    }

    /// Number of lines; one even for empty content.
    pub fn line_count(&self) -> (n: usize)
        ensures
            n == newline_count(self@) + 1,
    {
        rope_len_lines(&self.rope)
    }

    /// The character at position `char_idx`.
    pub fn char_at(&self, char_idx: usize) -> (c: char)
        requires
            char_idx < self@.len(),
        ensures
            c == self@[char_idx as int],
    {
        rope_char(&self.rope, char_idx)
    }

    /// The line that the character position `char_idx` falls on.
    pub fn char_to_line(&self, char_idx: usize) -> (l: usize)
        requires
            char_idx <= self@.len(),
        ensures
            l == line_of(self@, char_idx as int),
    {
        rope_char_to_line(&self.rope, char_idx)
    }

    /// The character position where line `line_idx` begins.
    pub fn line_to_char(&self, line_idx: usize) -> (i: usize)
        requires
            line_idx <= newline_count(self@) + 1,
        ensures
            i == line_start(self@, line_idx as int),
    {
        rope_line_to_char(&self.rope, line_idx)
    }

    /// Length of line `line_idx` in characters, counting its trailing
    /// newline; the last line has none.
    pub fn line_len_chars(&self, line_idx: usize) -> (n: usize)
        requires
            line_idx <= newline_count(self@),
        ensures
            n == line_len(self@, line_idx as int),
    {
        let total_lines = self.line_count();
        let a = self.line_to_char(line_idx);
        proof {
            assert(line_idx < total_lines);
            lemma_line_start_mono(self@, line_idx as int, line_idx + 1);
            lemma_line_start_props(self@, line_idx + 1);
        }
        let b = self.line_to_char(line_idx + 1);
        b - a
    }

    /// The index of the character containing byte `byte_idx` of the
    /// document's UTF-8 encoding.
    pub fn byte_to_char(&self, byte_idx: usize) -> (i: usize)
        requires
            byte_idx <= utf8_len(self@),
        ensures
            i == char_index_of_byte(self@, byte_idx as int),
    {
        rope_byte_to_char(&self.rope, byte_idx)
    }

    /// Inserts `text` at character position `char_idx`; positions at or
    /// after it shift forward by the text's length.  The caller must hand a
    /// valid position: an offset past the end is a contract violation, not a
    /// silent clamp.
    pub fn insert(&mut self, char_idx: usize, text: &str)
        requires
            char_idx <= old(self)@.len(),
            old(self)@.len() + text@.len() <= MAX_TEXT,
        ensures
            final(self)@ == old(self)@.take(char_idx as int) + text@ + old(self)@.skip(
                char_idx as int,
            ),
    {
        rope_insert(&mut self.rope, char_idx, text)
    }

    /// Inserts one character at position `char_idx`.
    pub fn insert_char(&mut self, char_idx: usize, c: char)
        requires
            char_idx <= old(self)@.len(),
            old(self)@.len() + 1 <= MAX_TEXT,
        ensures
            final(self)@ == old(self)@.take(char_idx as int) + seq![c] + old(self)@.skip(
                char_idx as int,
            ),
    {
        rope_insert_char(&mut self.rope, char_idx, c)
    }

    /// Deletes the half-open character range `[start, end)` and returns the
    /// removed text, which an undo entry needs.
    pub fn remove(&mut self, start: usize, end: usize) -> (removed: String)
        requires
            start <= end <= old(self)@.len(),
        ensures
            final(self)@ == old(self)@.take(start as int) + old(self)@.skip(end as int),
            removed@ == old(self)@.subrange(start as int, end as int),
    {
        let mut removed = String::new();
        let mut i: usize = start;
        while i < end
            invariant
                start <= i <= end <= self@.len(),
                self@ == old(self)@,
                removed@ == self@.subrange(start as int, i as int),
            decreases end - i,
        {
            let c = self.char_at(i);
            string_push(&mut removed, c);
            proof {
                assert(self@.subrange(start as int, i + 1) == self@.subrange(start as int, i as int)
                    .push(self@[i as int]));
            }
            i = i + 1;
        }
        rope_remove(&mut self.rope, start, end);
        removed
    }

    /// The whole text, for persistence.
    pub fn to_text(&self) -> (s: String)
        ensures
            s@ == self@,
    {
        rope_to_string(&self.rope)
    }
}

} // verus!
