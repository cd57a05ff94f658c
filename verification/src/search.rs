//! Text search for the `:find` command: plain substring matching (exact
//! and verified), regular-expression matching through the `regex` crate,
//! selection of the match nearest the cursor, and cycling through matches.

use vstd::prelude::*;
use crate::document::Document;
use crate::lines::{line_of, line_start, lemma_pos_in_line};
use crate::rope_text::{utf8_len, char_index_of_byte, lemma_char_index_of_byte_le,
    lemma_char_index_of_byte_mono};
use crate::strutil::chars_vec;
use crate::widget::ColorTextTag;

verus! {

/// Whether `t` occurs in `s` at position `i`.
pub open spec fn occurs_at(s: Seq<char>, t: Seq<char>, i: int) -> bool {
    0 <= i && i + t.len() <= s.len() && s.subrange(i, i + t.len()) == t
}

/// The non-overlapping occurrences of `t` in `s` at or after `i`, scanned
/// left to right, each as (position, length).
pub open spec fn plain_matches_from(s: Seq<char>, t: Seq<char>, i: int) -> Seq<(int, int)>
    decreases s.len() - i,
        when 0 <= i && 1 <= t.len()
{
    if i + t.len() > s.len() {
        Seq::empty()
    } else if occurs_at(s, t, i) {
        seq![(i, t.len() as int)] + plain_matches_from(s, t, i + t.len())
    } else {
        plain_matches_from(s, t, i + 1)
    }
}

/// All non-overlapping occurrences of `t` in `s`.
pub open spec fn plain_matches(s: Seq<char>, t: Seq<char>) -> Seq<(int, int)> {
    plain_matches_from(s, t, 0)
}

/// The model of a match list.
pub open spec fn matches_model(v: Seq<(usize, usize)>) -> Seq<(int, int)> {
    v.map_values(|p: (usize, usize)| (p.0 as int, p.1 as int))
}

/// Whether the characters of `t` appear in `s` starting at `i`.
fn window_eq(s: &Vec<char>, t: &Vec<char>, i: usize) -> (r: bool)
    requires
        i + t@.len() <= s@.len(),
    ensures
        r == (s@.subrange(i as int, i + t@.len()) =~= t@),
{
    let sn = s.len();
    let tn = t.len();
    let mut j: usize = 0;
    while j < tn
        invariant
            j <= tn,
            sn == s@.len(),
            tn == t@.len(),
            i + t@.len() <= s@.len(),
            forall|k: int| 0 <= k < j ==> s@[i + k] == t@[k],
        decreases tn - j,
    {
        if s[i + j] != t[j] {
            assert(s@.subrange(i as int, i + t@.len())[j as int] != t@[j as int]);
            return false;
        }
        j = j + 1;
    }
    assert forall|k: int| 0 <= k < t@.len() implies s@.subrange(i as int, i + t@.len())[k]
        == t@[k] by {}
    true
}

/// All non-overlapping occurrences of `term` in `text`, left to right,
/// each as (position, length) in characters.
pub fn find_plain(text: &str, term: &str) -> (r: Vec<(usize, usize)>)
    requires
        1 <= term@.len(),
    ensures
        matches_model(r@) == plain_matches(text@, term@),
{
    let s = chars_vec(text);
    let t = chars_vec(term);
    let mut r: Vec<(usize, usize)> = Vec::new();
    let mut i: usize = 0;
    proof {
        assert(matches_model(r@) =~= Seq::<(int, int)>::empty());
    }
    let sn = s.len();
    let tn = t.len();
    if tn > sn {
        proof {
            assert(plain_matches(text@, term@) =~= matches_model(r@));
        }
        return r;
    }
    while i <= sn - tn
        invariant
            s@ == text@,
            t@ == term@,
            sn == s@.len(),
            tn == t@.len(),
            1 <= tn <= sn,
            0 <= i,
            plain_matches(text@, term@) == matches_model(r@) + plain_matches_from(
                text@,
                term@,
                i as int,
            ),
        decreases s@.len() - i,
    {
        let ghost r0 = matches_model(r@);
        if window_eq(&s, &t, i) {
            r.push((i, t.len()));
            proof {
                assert(occurs_at(text@, term@, i as int));
                assert(matches_model(r@) =~= r0.push((i as int, t@.len() as int)));
                assert(r0 + plain_matches_from(text@, term@, i as int) =~= matches_model(r@)
                    + plain_matches_from(text@, term@, i + t@.len()));
            }
            i = i + tn;
        } else {
            proof {
                assert(!occurs_at(text@, term@, i as int));
            }
            i = i + 1;
        }
    }
    proof {
        assert(plain_matches_from(text@, term@, i as int) =~= Seq::<(int, int)>::empty());
        assert(plain_matches(text@, term@) =~= matches_model(r@));
    }
    r
}

/// The index of the first match at or after the cursor; the first match
/// overall when the cursor is past them all; nothing when there are none.
pub open spec fn selected_match(ps: Seq<(int, int)>, cur: int) -> Option<int> {
    selected_match_from(ps, cur, 0)
}

pub open spec fn selected_match_from(ps: Seq<(int, int)>, cur: int, k: int) -> Option<int>
    decreases ps.len() - k,
        when 0 <= k <= ps.len()
{
    if k >= ps.len() {
        if ps.len() > 0 {
            Some(0int)
        } else {
            None
        }
    } else if ps[k].0 >= cur {
        Some(k)
    } else {
        selected_match_from(ps, cur, k + 1)
    }
}

/// Picks the match the cursor should jump to: the first one at or after
/// the cursor, wrapping around to the first match, if any.
pub fn select_match(ps: &Vec<(usize, usize)>, cur: usize) -> (r: Option<usize>)
    ensures
        r is Some <==> selected_match(matches_model(ps@), cur as int) is Some,
        r is Some ==> r->0 as int == selected_match(matches_model(ps@), cur as int)->0
            && r->0 < ps@.len(),
{
    let n = ps.len();
    let mut k: usize = 0;
    while k < n
        invariant
            k <= n,
            n == ps@.len(),
            selected_match(matches_model(ps@), cur as int) == selected_match_from(
                matches_model(ps@),
                cur as int,
                k as int,
            ),
        decreases n - k,
    {
        if ps[k].0 >= cur {
            return Some(k);
        }
        k = k + 1;
    }
    if n > 0 {
        Some(0)
    } else {
        None
    }
}

/// The cycling state of the `:find` command: the matches of the last
/// search and which of them is selected.
pub struct SearchState {
    pub positions: Vec<(usize, usize)>,
    pub position_idx: usize,
}

impl SearchState {
    /// Either there are no matches and no selection, or the selection
    /// points at one of them.
    pub open spec fn wf(self) -> bool {
        if self.positions@.len() == 0 {
            self.position_idx == 0
        } else {
            self.position_idx < self.positions@.len()
        }
    }

    /// No search yet.
    pub fn new() -> (r: SearchState)
        ensures
            r.wf(),
            r.positions@.len() == 0,
    {
        SearchState { positions: Vec::new(), position_idx: 0 }
    }

    /// Installs the matches of a fresh search and selects `idx`.
    pub fn set_matches(&mut self, ps: Vec<(usize, usize)>, idx: usize)
        requires
            ps@.len() == 0 ==> idx == 0,
            ps@.len() > 0 ==> idx < ps@.len(),
        ensures
            final(self).wf(),
            final(self).positions@ == ps@,
            final(self).position_idx == idx,
    {
        self.positions = ps;
        self.position_idx = idx;
    }

    /// Steps the selection forward, wrapping at the end, and returns the
    /// selected match; (0, 0) when there are none.
    pub fn next_position(&mut self) -> (r: (usize, usize))
        requires
            old(self).wf(),
        ensures
            final(self).wf(),
            final(self).positions@ == old(self).positions@,
            old(self).positions@.len() == 0 ==> r == (0usize, 0usize) && final(self).position_idx
                == 0,
            old(self).positions@.len() > 0 ==> final(self).position_idx == if old(
                self,
            ).position_idx + 1 < old(self).positions@.len() {
                old(self).position_idx + 1
            } else {
                0int
            } && r == old(self).positions@[final(self).position_idx as int],
    {
        if self.positions.len() > 0 {
            self.position_idx = self.position_idx + 1;
            if self.position_idx >= self.positions.len() {
                self.position_idx = 0;
            }
            self.positions[self.position_idx]
        } else {
            (0, 0)
        }
    }

    /// Steps the selection backward, wrapping at the start, and returns
    /// the selected match; (0, 0) when there are none.
    pub fn prev_position(&mut self) -> (r: (usize, usize))
        requires
            old(self).wf(),
        ensures
            final(self).wf(),
            final(self).positions@ == old(self).positions@,
            old(self).positions@.len() == 0 ==> r == (0usize, 0usize) && final(self).position_idx
                == 0,
            old(self).positions@.len() > 0 ==> final(self).position_idx == if old(
                self,
            ).position_idx == 0 {
                old(self).positions@.len() - 1
            } else {
                old(self).position_idx - 1
            } && r == old(self).positions@[final(self).position_idx as int],
    {
        if self.positions.len() > 0 {
            if self.position_idx == 0 {
                self.position_idx = self.positions.len() - 1;
            } else {
                self.position_idx = self.position_idx - 1;
            }
            self.positions[self.position_idx]
        } else {
            (0, 0)
        }
    }
}

/// Whether a search term is a `/regex/` form.
pub open spec fn term_is_regex(t: Seq<char>) -> bool {
    t.len() > 2 && t[0] == '/' && t.last() == '/'
}

/// Whether a search term is wrapped in matching quotes.
pub open spec fn term_is_quoted(t: Seq<char>) -> bool {
    t.len() > 2 && ((t[0] == '"' && t.last() == '"') || (t[0] == '\'' && t.last() == '\''))
}

/// The text to search for: the inside of a `/regex/` or quoted form, the
/// term itself otherwise.
pub open spec fn term_payload(t: Seq<char>) -> Seq<char> {
    if term_is_regex(t) || term_is_quoted(t) {
        t.subrange(1, t.len() - 1)
    } else {
        t
    }
}

/// Splits a search term into its kind (regex or plain) and the text to
/// search for.
pub fn parse_search_term(term: &str) -> (r: (bool, Vec<char>))
    ensures
        r.0 == term_is_regex(term@),
        r.1@ == term_payload(term@),
{
    let t = chars_vec(term);
    let n = t.len();
    let is_regex = n > 2 && t[0] == '/' && t[n - 1] == '/';
    let is_quoted = n > 2 && ((t[0] == '"' && t[n - 1] == '"') || (t[0] == '\'' && t[n - 1]
        == '\''));
    if is_regex || is_quoted {
        let mut inner: Vec<char> = Vec::new();
        let mut i: usize = 1;
        while i < n - 1
            invariant
                1 <= i <= n - 1,
                n == t@.len(),
                t@ == term@,
                2 < n,
                inner@ == term@.subrange(1, i as int),
            decreases n - i,
        {
            proof {
                assert(term@.subrange(1, i + 1) =~= term@.subrange(1, i as int).push(
                    term@[i as int],
                ));
            }
            inner.push(t[i]);
            i = i + 1;
        }
        (is_regex, inner)
    } else {
        (is_regex, t)
    }
}

/// One highlighted stretch of text: a line, the column where the stretch
/// begins, its length in characters, and the tag that classifies it.
#[derive(PartialEq, Eq, Structural, Clone, Copy, Debug)]
pub struct HighlightSpan {
    pub line: usize,
    pub x: usize,
    pub len: usize,
    pub tag: ColorTextTag,
}

/// The line/column overlay spans for a match list: one `Find` span per
/// match, and one `Selection` span on top for the selected match, if any.
/// The renderer colors these; the coordinates are computed here.
pub fn match_spans(
    doc: &Document,
    positions: &Vec<(usize, usize)>,
    selected: Option<usize>,
) -> (r: Vec<HighlightSpan>)
    requires
        forall|k: int| 0 <= k < positions@.len() ==> (#[trigger] positions@[k]).0 <= doc@.len(),
        selected is Some ==> selected->0 < positions@.len(),
    ensures
        r@.len() == positions@.len() + if selected is Some {
            1int
        } else {
            0int
        },
        forall|k: int| 0 <= k < positions@.len() ==> {
            let p = positions@[k].0 as int;
            &&& (#[trigger] r@[k]).line == line_of(doc@, p)
            &&& r@[k].x == p - line_start(doc@, line_of(doc@, p))
            &&& r@[k].len == positions@[k].1
            &&& r@[k].tag == ColorTextTag::Find
        },
        selected is Some ==> {
            let p = positions@[selected->0 as int].0 as int;
            &&& r@.last().line == line_of(doc@, p)
            &&& r@.last().x == p - line_start(doc@, line_of(doc@, p))
            &&& r@.last().len == positions@[selected->0 as int].1
            &&& r@.last().tag == ColorTextTag::Selection
        },
{
    let mut r: Vec<HighlightSpan> = Vec::new();
    let n = positions.len();
    let mut k: usize = 0;
    while k < n
        invariant
            k <= n,
            n == positions@.len(),
            forall|j: int| 0 <= j < positions@.len() ==> (#[trigger] positions@[j]).0
                <= doc@.len(),
            r@.len() == k,
            forall|j: int| 0 <= j < k ==> {
                let p = positions@[j].0 as int;
                &&& (#[trigger] r@[j]).line == line_of(doc@, p)
                &&& r@[j].x == p - line_start(doc@, line_of(doc@, p))
                &&& r@[j].len == positions@[j].1
                &&& r@[j].tag == ColorTextTag::Find
            },
        decreases n - k,
    {
        let (p, len) = positions[k];
        let line = doc.char_to_line(p);
        proof {
            lemma_pos_in_line(doc@, p as int);
        }
        let x = p - doc.line_to_char(line);
        r.push(HighlightSpan { line, x, len, tag: ColorTextTag::Find });
        k = k + 1;
    }
    match selected {
        Some(idx) => {
            let (p, len) = positions[idx];
            let line = doc.char_to_line(p);
            proof {
                lemma_pos_in_line(doc@, p as int);
            }
            let x = p - doc.line_to_char(line);
            r.push(HighlightSpan { line, x, len, tag: ColorTextTag::Selection });
        },
        None => {},
    }
    r
}

/// Whether a regular expression pattern compiles; a function of the
/// pattern alone.
pub uninterp spec fn regex_compiles(pattern: Seq<char>) -> bool;

/// The non-overlapping match ranges a compiled pattern yields on a text,
/// left to right, as byte offsets (start, end) into the text's UTF-8
/// encoding; a function of the pattern and the text alone.
pub uninterp spec fn regex_match_ranges(pattern: Seq<char>, text: Seq<char>) -> Seq<(int, int)>;

/// The model of a byte-range list.
pub open spec fn ranges_model(v: Seq<(usize, usize)>) -> Seq<(int, int)> {
    v.map_values(|p: (usize, usize)| (p.0 as int, p.1 as int))
}

/// Relies on `regex::Regex::new` and `regex::Regex::find_iter`: whether
/// the pattern compiles, and which non-overlapping leftmost match ranges
/// it yields, depend on the pattern and the text alone; every range lies
/// within the text and runs start to end.
#[verifier::external_body]
fn regex_find_bytes(pattern: &str, text: &str) -> (r: Option<Vec<(usize, usize)>>)
    ensures
        r is Some <==> regex_compiles(pattern@),
        r is Some ==> ranges_model(r->0@) == regex_match_ranges(pattern@, text@),
        r is Some ==> forall|k: int| 0 <= k < r->0@.len() ==> 0 <= #[trigger] r->0@[k].0
            <= r->0@[k].1 <= utf8_len(text@),
{
    match regex::Regex::new(pattern) {
        Ok(re) => Some(re.find_iter(text).map(|m| (m.start(), m.end())).collect()),
        Err(_) => None,
    }
}

/// Runs a regular expression over the document and hands back the match
/// positions converted to characters: (position, length) pairs, each the
/// character index of the byte range that [`regex_match_ranges`] names.
pub fn find_regex(doc: &Document, pattern: &str) -> (r: Option<Vec<(usize, usize)>>)
    ensures
        r is Some <==> regex_compiles(pattern@),
        r is Some ==> {
            let ranges = regex_match_ranges(pattern@, doc@);
            &&& r->0@.len() == ranges.len()
            &&& forall|k: int| 0 <= k < ranges.len() ==> {
                let cs = char_index_of_byte(doc@, ranges[k].0);
                let ce = char_index_of_byte(doc@, ranges[k].1);
                #[trigger] r->0@[k] == (cs as usize, (ce - cs) as usize)
            }
        },
        r is Some ==> forall|k: int| 0 <= k < r->0@.len() ==> #[trigger] r->0@[k].0 + r->0@[k].1
            <= doc@.len(),
{
    let text = doc.to_text();
    match regex_find_bytes(pattern, text.as_str()) {
        None => None,
        Some(byte_ranges) => {
            let ghost ranges = regex_match_ranges(pattern@, doc@);
            let mut out: Vec<(usize, usize)> = Vec::new();
            let mut k: usize = 0;
            while k < byte_ranges.len()
                invariant
                    k <= byte_ranges@.len(),
                    ranges == ranges_model(byte_ranges@),
                    forall|j: int| 0 <= j < byte_ranges@.len() ==> 0
                        <= (#[trigger] byte_ranges@[j]).0 <= byte_ranges@[j].1 <= utf8_len(doc@),
                    out@.len() == k,
                    forall|j: int| 0 <= j < k ==> {
                        let cs = char_index_of_byte(doc@, ranges[j].0);
                        let ce = char_index_of_byte(doc@, ranges[j].1);
                        #[trigger] out@[j] == (cs as usize, (ce - cs) as usize)
                    },
                    forall|j: int| 0 <= j < k ==> #[trigger] out@[j].0 + out@[j].1 <= doc@.len(),
                decreases byte_ranges@.len() - k,
            {
                let (bs, be) = byte_ranges[k];
                proof {
                    lemma_char_index_of_byte_le(doc@, be as int);
                    lemma_char_index_of_byte_mono(doc@, bs as int, be as int);
                }
                let cs = doc.byte_to_char(bs);
                let ce = doc.byte_to_char(be);
                out.push((cs, ce - cs));
                k = k + 1;
            }
            Some(out)
        },
    }
}

} // verus!
