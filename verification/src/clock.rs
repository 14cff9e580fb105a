//! The clock the library reads.

use vstd::prelude::*;

verus! {

/// Seconds since the Unix epoch by `std::time::SystemTime::now`, or 0 where
/// the system clock stands before the epoch. The value changes from call to
/// call, so nothing is stated of it.
#[verifier::external_body]
pub(crate) fn unix_now() -> u64 {
    std::time::SystemTime::now().duration_since(std::time::UNIX_EPOCH).unwrap_or_default().as_secs()
}

/// The time of the system clock as a signed Unix timestamp: the seconds
/// since the epoch, the largest timestamp where they do not fit, 0 where the
/// clock stands before the epoch.
pub(crate) fn utc_timestamp() -> (r: i64)
    ensures
        r >= 0,
{
    let seconds = unix_now();
    if seconds > 0x7fff_ffff_ffff_ffff {
        0x7fff_ffff_ffff_ffff
    } else {
        seconds as i64
    }
}

} // verus!
