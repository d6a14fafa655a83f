//! Identifiers and keys made from UUIDs and clock readings.
use vstd::prelude::*;
use crate::text::{
    first_segment, first_segment_text, join2, remove_dashes, remove_dashes_text, signed_decimal,
    signed_decimal_text, text_of_range, chars_of,
};

verus! {

/// `prefix` followed by the first group of a UUID's text (what comes before
/// its first dash), as in `wf_1b4e28ba`.
pub fn short_id(prefix: &str, uuid: &str) -> (r: String)
    ensures
        r@ == prefix@ + first_segment(uuid@),
{
    let seg = first_segment_text(uuid);
    join2(prefix, seg.as_str())
}

/// `prefix` followed by a UUID's text without its dashes.
pub fn compact_id(prefix: &str, uuid: &str) -> (r: String)
    ensures
        r@ == prefix@ + remove_dashes(uuid@),
{
    let c = remove_dashes_text(uuid);
    join2(prefix, c.as_str())
}

/// A user id: `usr_` and the first twelve characters of a UUID's text
/// without dashes.
pub fn user_id(uuid: &str) -> (r: String)
    requires
        remove_dashes(uuid@).len() >= 12,
    ensures
        r@ == "usr_"@ + remove_dashes(uuid@).take(12),
{
    let c = remove_dashes_text(uuid);
    let v = chars_of(c.as_str());
    let head = text_of_range(&v, 0, 12);
    assert(v@.subrange(0, 12) =~= remove_dashes(uuid@).take(12));
    join2("usr_", head.as_str())
}

/// `prefix` followed by a clock reading in milliseconds, as in `run_1712345678901`.
pub fn millis_id(prefix: &str, millis: i64) -> (r: String)
    ensures
        r@ == prefix@ + signed_decimal(millis as int),
{
    let d = signed_decimal_text(millis);
    join2(prefix, d.as_str())
}

} // verus!
