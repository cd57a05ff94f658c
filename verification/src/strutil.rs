//! Small verified helpers for `String` values: turning a string into its
//! characters, appending one character, and reversing.

use vstd::prelude::*;

verus! {

broadcast use vstd::string::axiom_spec_iter;

/// Relies on `String::push`: appends one character at the end.
#[verifier::external_body]
pub(crate) fn string_push(s: &mut String, c: char)
    ensures
        final(s)@ == old(s)@.push(c),
{
    s.push(c)
}

/// The characters of a string slice, as a vector.
pub fn chars_vec(s: &str) -> (v: Vec<char>)
    ensures
        v@ == s@,
{
    let mut v: Vec<char> = Vec::new();
    for c in it: s.chars()
        invariant
            it.seq() == s@,
            v@ == s@.take(it.index()),
    {
        proof {
            assert(s@.take(it.index() + 1) =~= s@.take(it.index()).push(s@[it.index()]));
        }
        v.push(c);
    }
    proof {
        assert(s@.take(s@.len() as int) =~= s@);
    }
    v
}

/// A string holding the characters of `s` in reverse order.
pub fn reverse_string(s: &str) -> (r: String)
    ensures
        r@ == s@.reverse(),
{
    let v = chars_vec(s);
    let mut out = String::new();
    let mut i: usize = v.len();
    while i > 0
        invariant
            i <= v.len(),
            v@ == s@,
            out@.len() == v.len() - i,
            forall|j: int| 0 <= j < out@.len() ==> out@[j] == v@[v@.len() - 1 - j],
        decreases i,
    {
        i = i - 1;
        string_push(&mut out, v[i]);
    }
    proof {
        assert(out@ =~= s@.reverse());
    }
    out
}

/// The number of characters (not bytes) in a string slice.
pub fn char_count(s: &str) -> (n: usize)
    ensures
        n == s@.len(),
{
    let v = chars_vec(s);
    v.len()
}

/// The last character of a string, if it is not empty.
pub fn last_char(s: &str) -> (r: Option<char>)
    ensures
        r == if s@.len() == 0 {
            Option::<char>::None
        } else {
            Option::Some(s@.last())
        },
{
    let v = chars_vec(s);
    if v.len() == 0 {
        None
    } else {
        Some(v[v.len() - 1])
    }
}

} // verus!
