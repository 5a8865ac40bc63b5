//! Whitespace trimming and lowercasing, taken from std.
//!
//! Both transformations are determined by Unicode character properties, so
//! their results are named rather than written out: `trim_of` and `lower_of`
//! stand for whatever the std functions return, which depends on the input
//! characters alone.

use vstd::prelude::*;

verus! {

/// What `str::trim` returns on a string with these characters.
pub uninterp spec fn trim_of(s: Seq<char>) -> Seq<char>;

/// What `str::to_lowercase` returns on a string with these characters.
pub uninterp spec fn lower_of(s: Seq<char>) -> Seq<char>;

/// Relies on str::trim: the input with leading and trailing whitespace
/// removed, a function of the characters alone.
#[verifier::external_body]
pub(crate) fn trim_str(s: &str) -> (r: &str)
    ensures
        r@ == trim_of(s@),
{
    s.trim()
}

/// Relies on str::to_lowercase: the Unicode lowercase equivalent of the
/// input, a function of the characters alone.
#[verifier::external_body]
pub(crate) fn lower_str(s: &str) -> (r: String)
    ensures
        r@ == lower_of(s@),
{
    s.to_lowercase()
}

} // verus!
