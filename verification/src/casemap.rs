//! Unicode case mapping, done by the standard library.
use vstd::prelude::*;
use crate::text::{ascii_lower, ascii_upper, is_ascii_text};

verus! {

/// The Unicode upper-case mapping of `s` (as `str::to_uppercase` gives it).
pub uninterp spec fn upper_case(s: Seq<char>) -> Seq<char>;

/// The Unicode lower-case mapping of `s` (as `str::to_lowercase` gives it).
pub uninterp spec fn lower_case(s: Seq<char>) -> Seq<char>;

/// Calls `str::to_uppercase`. Claimed: the result is `upper_case(s)`, a
/// function of `s` alone, and it is empty exactly when `s` is (each
/// character maps to one or more, as the documentation of
/// `char::to_uppercase` says); an ASCII text maps letter by letter to its
/// ASCII upper case (Unicode's mapping of the ASCII letters, which
/// `to_ascii_uppercase` also gives).
#[verifier::external_body]
pub(crate) fn to_upper(s: &str) -> (r: String)
    ensures
        r@ == upper_case(s@),
        r@.len() == 0 <==> s@.len() == 0,
        is_ascii_text(s@) ==> r@ == s@.map_values(|c: char| ascii_upper(c)),
{
    s.to_uppercase()
}

/// Calls `str::to_lowercase`. Claimed: the result is `lower_case(s)`, a
/// function of `s` alone, and it is empty exactly when `s` is (each
/// character maps to one or more, as the documentation of
/// `char::to_lowercase` says); an ASCII text maps letter by letter to its
/// ASCII lower case (Unicode's mapping of the ASCII letters, which
/// `to_ascii_lowercase` also gives).
#[verifier::external_body]
pub(crate) fn to_lower(s: &str) -> (r: String)
    ensures
        r@ == lower_case(s@),
        r@.len() == 0 <==> s@.len() == 0,
        is_ascii_text(s@) ==> r@ == s@.map_values(|c: char| ascii_lower(c)),
{
    s.to_lowercase()
}

} // verus!
