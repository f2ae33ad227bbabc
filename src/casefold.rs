use vstd::prelude::*;

verus! {

/// A character in the ASCII range.
pub open spec fn is_ascii_char(c: char) -> bool {
    (c as u32) < 128
}

/// A lowercase ASCII letter.
pub open spec fn is_ascii_lower(c: char) -> bool {
    'a' <= c && c <= 'z'
}

/// An uppercase ASCII letter.
pub open spec fn is_ascii_upper(c: char) -> bool {
    'A' <= c && c <= 'Z'
}

/// The ASCII uppercase form of `c`: letters `a`..`z` move to `A`..`Z`, the rest stay.
pub open spec fn ascii_upper(c: char) -> char {
    if is_ascii_lower(c) {
        ((c as u32) - 32) as char
    } else {
        c
    }
}

/// The ASCII lowercase form of `c`: letters `A`..`Z` move to `a`..`z`, the rest stay.
pub open spec fn ascii_lower(c: char) -> char {
    if is_ascii_upper(c) {
        ((c as u32) + 32) as char
    } else {
        c
    }
}

/// What Unicode upper-casing makes of a string.
pub uninterp spec fn upper_of(s: Seq<char>) -> Seq<char>;

/// What Unicode lower-casing makes of a string.
pub uninterp spec fn lower_of(s: Seq<char>) -> Seq<char>;

/// Relies on `str::to_uppercase`: the result depends on the characters alone,
/// and a single ASCII character becomes its ASCII uppercase form.
#[verifier::external_body]
pub(crate) fn to_uppercase(s: &str) -> (r: String)
    ensures
        r@ == upper_of(s@),
        s@.len() == 1 && is_ascii_char(s@[0]) ==> r@ == seq![ascii_upper(s@[0])],
{
    s.to_uppercase()
}

/// Relies on `str::to_lowercase`: the result depends on the characters alone,
/// and a single ASCII character becomes its ASCII lowercase form.
#[verifier::external_body]
pub(crate) fn to_lowercase(s: &str) -> (r: String)
    ensures
        r@ == lower_of(s@),
        s@.len() == 1 && is_ascii_char(s@[0]) ==> r@ == seq![ascii_lower(s@[0])],
{
    s.to_lowercase()
}

} // verus!
