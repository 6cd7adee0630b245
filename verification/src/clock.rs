//! Monotonic time stamps.
//!
//! Time stamps are `std::time::Instant` values read from the system's
//! monotonic clock. The library carries them and measures the distance
//! between two of them; it never interprets them otherwise.
use vstd::prelude::*;

verus! {

#[verifier::external_type_specification]
#[verifier::external_body]
pub struct ExInstant(std::time::Instant);

/// The whole microseconds from `earlier` to `later`, 0 when `later` is not
/// after `earlier`.
pub uninterp spec fn micros_between(later: std::time::Instant, earlier: std::time::Instant) -> u64;

/// Reads the monotonic clock with `Instant::now`. What it returns depends
/// on the moment of the call, so nothing is stated of it.
#[verifier::external_body]
pub(crate) fn instant_now() -> (r: std::time::Instant) {
    std::time::Instant::now()
}

/// The microseconds from `earlier` to `later`, computed with
/// `Instant::saturating_duration_since` and `Duration::as_micros` (truncated
/// to 64 bits). The result depends on the two instants alone, and is 0 from
/// an instant to itself.
#[verifier::external_body]
pub(crate) fn elapsed_micros(later: &std::time::Instant, earlier: &std::time::Instant) -> (r: u64)
    ensures
        r == micros_between(*later, *earlier),
        *later == *earlier ==> r == 0,
{
    later.saturating_duration_since(*earlier).as_micros() as u64
}

/// The whole nanoseconds from `earlier` to `later`, 0 when `later` is not
/// after `earlier`.
pub uninterp spec fn nanos_between(later: std::time::Instant, earlier: std::time::Instant) -> u64;

/// The nanoseconds from `earlier` to `later`, computed with
/// `Instant::saturating_duration_since` and `Duration::as_nanos` (truncated
/// to 64 bits, which covers centuries). The result depends on the two
/// instants alone, and is 0 from an instant to itself.
#[verifier::external_body]
pub(crate) fn elapsed_nanos(later: &std::time::Instant, earlier: &std::time::Instant) -> (r: u64)
    ensures
        r == nanos_between(*later, *earlier),
        *later == *earlier ==> r == 0,
{
    later.saturating_duration_since(*earlier).as_nanos() as u64
}

/// The whole milliseconds from `earlier` to `later`, 0 when `later` is not
/// after `earlier`.
pub uninterp spec fn millis_between(later: std::time::Instant, earlier: std::time::Instant) -> u64;

/// The milliseconds from `earlier` to `later`, computed with
/// `Instant::saturating_duration_since` and `Duration::as_millis` (truncated
/// to 64 bits). The result depends on the two instants alone, and is 0
/// from an instant to itself.
#[verifier::external_body]
pub(crate) fn elapsed_millis(later: &std::time::Instant, earlier: &std::time::Instant) -> (r: u64)
    ensures
        r == millis_between(*later, *earlier),
        *later == *earlier ==> r == 0,
{
    later.saturating_duration_since(*earlier).as_millis() as u64
}

/// Milliseconds since the Unix epoch by the system's wall clock
/// (`SystemTime::now`, measured from `UNIX_EPOCH`; 0 for a clock set before
/// the epoch). It depends on the moment of the call, so nothing is stated.
#[verifier::external_body]
pub(crate) fn unix_time_millis() -> (r: u64) {
    std::time::SystemTime::now().duration_since(std::time::UNIX_EPOCH).unwrap_or_default().as_millis() as u64
}

} // verus!
