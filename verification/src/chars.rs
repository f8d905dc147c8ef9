//! Unicode classification of chars, as std gives it. White space is the
//! short list of the Unicode `White_Space` property; what counts as
//! alphanumeric is a large table of the Unicode database, so that answer is
//! named rather than written out.

use vstd::prelude::*;

verus! {

/// What `char::is_whitespace` answers for `c`: whether `c` has the Unicode
/// `White_Space` property (PropList.txt): U+0009 to U+000D, U+0020, U+0085,
/// U+00A0, U+1680, U+2000 to U+200A, U+2028, U+2029, U+202F, U+205F and
/// U+3000.
pub open spec fn is_whitespace_char(c: char) -> bool {
    let u = c as u32;
    ||| 0x9 <= u <= 0xD
    ||| u == 0x20
    ||| u == 0x85
    ||| u == 0xA0
    ||| u == 0x1680
    ||| 0x2000 <= u <= 0x200A
    ||| u == 0x2028
    ||| u == 0x2029
    ||| u == 0x202F
    ||| u == 0x205F
    ||| u == 0x3000
}

/// What `char::is_alphanumeric` answers for `c` (the Unicode `Alphabetic`
/// or `Numeric` properties).
pub uninterp spec fn is_alphanumeric_char(c: char) -> bool;

/// `char::is_whitespace`: whether `c` is one of the `White_Space` chars
/// listed at `is_whitespace_char`.
#[verifier::external_body]
pub(crate) fn char_is_whitespace(c: char) -> (b: bool)
    ensures
        b == is_whitespace_char(c),
{
    c.is_whitespace()
}

/// `char::is_alphanumeric`: its answer, named by `is_alphanumeric_char`.
/// An alphanumeric char (Unicode `Alphabetic`, or general category `Nd`,
/// `Nl` or `No`) is never white space: the `White_Space` chars are all of the
/// categories `Cc`, `Zs`, `Zl` and `Zp`, none of which is alphabetic or
/// numeric.
#[verifier::external_body]
pub(crate) fn char_is_alphanumeric(c: char) -> (b: bool)
    ensures
        b == is_alphanumeric_char(c),
        b ==> !is_whitespace_char(c),
{
    c.is_alphanumeric()
}

} // verus!
