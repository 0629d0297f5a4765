//! The wall clock, read as whole seconds since the Unix epoch.

use vstd::prelude::*;

verus! {

/// Whole seconds from the Unix epoch to now on the system clock, or `None`
/// when the clock reads before the epoch.
/// Trusted: `SystemTime::elapsed` on `std::time::UNIX_EPOCH`; nothing is
/// stated of the reading, which depends on the clock.
#[verifier::external_body]
fn unix_seconds() -> Option<u64> {
    std::time::UNIX_EPOCH.elapsed().ok().map(|d| d.as_secs())
}

/// The current time as a Unix timestamp in seconds (0 when the clock reads
/// before the epoch).
pub fn current_timestamp() -> i64 {
    match unix_seconds() {
        Some(secs) => secs as i64,
        None => 0,
    }
}

} // verus!
