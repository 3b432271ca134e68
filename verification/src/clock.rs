//! The time, in milliseconds since the Unix epoch.

use vstd::prelude::*;

verus! {

/// The time since the Unix epoch as whole seconds and further nanoseconds, or nothing where the
/// clock stands before the epoch.
///
/// Calls `std::time::SystemTime::elapsed` on `UNIX_EPOCH`, and splits the duration into its
/// seconds and its nanoseconds within the second, of which there are always fewer than a
/// thousand million. What the clock shows is not stated.
#[verifier::external_body]
fn since_epoch() -> (elapsed: Option<(u64, u32)>)
    ensures
        elapsed matches Some(t) ==> t.1 < 1_000_000_000,
{
    let elapsed = std::time::UNIX_EPOCH.elapsed().ok()?;
    Some((elapsed.as_secs(), elapsed.subsec_nanos()))
}

/// Whole milliseconds in `elapsed`, a time in seconds and nanoseconds; none where there is none.
pub fn whole_millis(elapsed: Option<(u64, u32)>) -> (millis: u128)
    ensures
        millis == match elapsed {
            Some(t) => t.0 * 1000 + t.1 as int / 1_000_000,
            None => 0,
        },
{
    match elapsed {
        Some(t) => t.0 as u128 * 1000 + (t.1 / 1_000_000) as u128,
        None => 0,
    }
}

/// The current time in milliseconds since the Unix epoch, or 0 before it.
///
/// What the clock shows is left open; the result is a count of milliseconds that a time in
/// 64-bit seconds can have.
pub fn unix_millis() -> (millis: u128)
    ensures
        millis <= u64::MAX * 1000 + 999,
{
    whole_millis(since_epoch())
}

} // verus!
