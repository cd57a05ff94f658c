//! Character classes that the word motions scan by.  Whitespace and
//! alphanumerics follow Unicode and are taken from `std`; ASCII punctuation
//! has a four-range definition that is stated and verified directly.

use vstd::prelude::*;

verus! {

/// Whether `c` has the Unicode whitespace property.
pub uninterp spec fn whitespace_char(c: char) -> bool;

/// Relies on `char::is_whitespace`: the Unicode whitespace property, a
/// function of the character alone.
#[verifier::external_body]
pub fn is_whitespace_char(c: char) -> (r: bool)
    ensures
        r == whitespace_char(c),
{
    c.is_whitespace()
}

/// Whether `c` is a Unicode alphabetic character or a digit.
pub uninterp spec fn alnum_char(c: char) -> bool;

/// Relies on `char::is_alphanumeric`: the Unicode alphanumeric property, a
/// function of the character alone.
#[verifier::external_body]
pub fn is_alnum_char(c: char) -> (r: bool)
    ensures
        r == alnum_char(c),
{
    c.is_alphanumeric()
}

/// ASCII punctuation: `!`..`/`, `:`..`@`, `[`..`` ` ``, `{`..`~`.
pub open spec fn ascii_punct_char(c: char) -> bool {
    ||| 0x21 <= (c as u32) && (c as u32) <= 0x2f
    ||| 0x3a <= (c as u32) && (c as u32) <= 0x40
    ||| 0x5b <= (c as u32) && (c as u32) <= 0x60
    ||| 0x7b <= (c as u32) && (c as u32) <= 0x7e
}

pub fn is_ascii_punct_char(c: char) -> (r: bool)
    ensures
        r == ascii_punct_char(c),
{
    let u = c as u32;
    (0x21 <= u && u <= 0x2f) || (0x3a <= u && u <= 0x40) || (0x5b <= u && u <= 0x60) || (0x7b <= u
        && u <= 0x7e)
}

} // verus!
