//! The wall clock, in whole seconds since the Unix epoch.

use vstd::prelude::*;

verus! {

/// Reads the system clock and lets chrono turn it into a timestamp
/// (`DateTime::<Utc>::from(SystemTime)`, then `timestamp`). A clock that
/// stands before the Unix epoch gives a negative count.
///
/// Trusted, with nothing promised: the result is whatever the machine's
/// clock says. The conversion gives up only on a clock set beyond the years
/// chrono can count, some 262,000 either side of the epoch.
#[verifier::external_body]
fn utc_timestamp() -> i64 {
    chrono::DateTime::<chrono::Utc>::from(std::time::SystemTime::now()).timestamp()
}

/// A timestamp as the unsigned count the gateway works with; one before the
/// epoch counts as the epoch itself.
pub open spec fn clamped(raw: i64) -> u64 {
    if raw < 0 {
        0
    } else {
        raw as u64
    }
}

/// Converts a signed timestamp into seconds since the epoch.
pub fn seconds_since_epoch(raw: i64) -> (r: u64)
    ensures
        r == clamped(raw),
{
    if raw < 0 {
        0
    } else {
        raw as u64
    }
}

/// The current time, in seconds since the epoch.
///
/// Which time that is only the clock can say. Whatever it says, the result
/// is that timestamp as [`clamped`] makes it: a count that a signed
/// timestamp can hold.
pub fn now_seconds() -> (r: u64)
    ensures
        exists|raw: i64| r == #[trigger] clamped(raw),
        r <= i64::MAX,
{
    let raw: i64 = utc_timestamp();
    seconds_since_epoch(raw)
}

} // verus!
