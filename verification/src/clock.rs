//! Reading the system clock.
use vstd::prelude::*;
use crate::engine::run::{stamp, timestamp_text};

verus! {

/// Reads the system clock: whole seconds since the Unix epoch (0 when the
/// clock is set before it). Nothing is claimed of the value.
#[verifier::external_body]
fn system_seconds() -> u64 {
    std::time::SystemTime::now().duration_since(std::time::UNIX_EPOCH).unwrap_or_default().as_secs()
}

/// Reads the system clock: milliseconds since the Unix epoch, cut to 64
/// bits (0 when the clock is set before it). Nothing is claimed of the value.
#[verifier::external_body]
fn system_millis() -> u64 {
    std::time::SystemTime::now().duration_since(std::time::UNIX_EPOCH).unwrap_or_default().as_millis() as u64
}

/// The current time, as the seconds since the epoch followed by `Z`.
pub fn chrono_now() -> (s: String)
    ensures
        exists|t: u64| s@ == stamp(t),
{
    let t = system_seconds();
    timestamp_text(t)
}

/// The current time in milliseconds since the epoch.
pub fn now_ms() -> u64 {
    system_millis()
}

/// The current time in seconds since the epoch.
pub fn now_secs() -> u64 {
    system_seconds()
}

} // verus!
