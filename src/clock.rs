//! The wall clock, read for nonces and for time-based codes.
use vstd::prelude::*;

verus! {

/// Relies on std::time::SystemTime::now: the milliseconds since the Unix
/// epoch, truncated to 64 bits, or zero for a clock set before the epoch.
/// Nothing is promised of the value: it is the time.
#[verifier::external_body]
fn unix_millis() -> (r: u64) {
    std::time::SystemTime::now().duration_since(std::time::UNIX_EPOCH).unwrap_or_default().as_millis() as u64
}

/// A nonce for a signed request: the current time in milliseconds since the
/// Unix epoch.
pub fn get_nonce() -> (r: u64) {
    unix_millis()
}

/// The current time in whole seconds since the Unix epoch.
pub fn unix_seconds() -> (r: u64)
    ensures
        r <= u64::MAX / 1000,
{
    unix_millis() / 1000
}

} // verus!
