//! The clocks the library reads: the wall clock and a monotonic clock.
use vstd::prelude::*;

verus! {

/// The largest magnitude of a time that the engine takes (about 285 000 years
/// in milliseconds); sums of two such times fit in `i64`.
pub const TIME_LIMIT: i64 = 0x0020_0000_0000_0000;

/// Relies on `chrono::Utc::now` and `DateTime::timestamp_millis`: the wall
/// clock, in milliseconds since the Unix epoch. Nothing is known of the value.
#[verifier::external_body]
pub(crate) fn wall_clock_millis() -> i64 {
    chrono::Utc::now().timestamp_millis()
}

/// Declares `std::time::Instant` so that the engine can hold its clock.
#[verifier::external_type_specification]
#[verifier::external_body]
pub struct ExInstant(std::time::Instant);

/// Relies on `std::time::Instant::now`: a reading of the monotonic clock.
#[verifier::external_body]
pub(crate) fn clock_start() -> std::time::Instant {
    std::time::Instant::now()
}

/// Relies on `std::time::Instant::elapsed` and `Duration::as_millis`: the
/// whole milliseconds since `start`. Nothing more is known of the value.
#[verifier::external_body]
fn elapsed_millis(start: &std::time::Instant) -> u128 {
    start.elapsed().as_millis()
}

/// The milliseconds since `start`, capped at [`TIME_LIMIT`].
pub fn clock_millis_since(start: &std::time::Instant) -> (r: i64)
    ensures
        0 <= r <= TIME_LIMIT,
{
    let m = elapsed_millis(start);
    if m > TIME_LIMIT as u128 {
        TIME_LIMIT
    } else {
        m as i64
    }
}

} // verus!
