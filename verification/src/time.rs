//! Clock readings and durations from std. What they return depends on the
//! clock, so the library states nothing about their values; the logic that
//! uses them takes their results as arguments.
use std::time::{Duration, Instant, SystemTime};
use vstd::prelude::*;

verus! {

/// A point in time of the monotonic clock.
#[verifier::external_type_specification]
#[verifier::external_body]
pub struct ExInstant(Instant);

/// A point in time of the system clock.
#[verifier::external_type_specification]
#[verifier::external_body]
pub struct ExSystemTime(SystemTime);

/// `Clone` of `SystemTime`, a `Copy` type: the same point in time.
pub assume_specification[ <SystemTime as Clone>::clone ](t: &SystemTime) -> (r: SystemTime)
    ensures
        r == *t,
;

/// `Clone` of `Instant`, a `Copy` type: the same point in time.
pub assume_specification[ <Instant as Clone>::clone ](t: &Instant) -> (r: Instant)
    ensures
        r == *t,
;

/// `SystemTime::now`: the current reading of the system clock.
#[verifier::external_body]
pub(crate) fn system_time_now() -> SystemTime {
    SystemTime::now()
}

/// `Instant::now`: the current reading of the monotonic clock.
#[verifier::external_body]
pub(crate) fn instant_now() -> Instant {
    Instant::now()
}

/// `Instant::elapsed`: the time since `i`, in nanoseconds (saturated to
/// `u128`'s range by `Duration::as_nanos`).
#[verifier::external_body]
pub(crate) fn elapsed_nanos(i: &Instant) -> u128 {
    i.elapsed().as_nanos()
}

/// `Instant::elapsed`: the time since `i`.
#[verifier::external_body]
pub(crate) fn elapsed(i: &Instant) -> Duration {
    i.elapsed()
}

/// The length of a duration in nanoseconds, as `Duration::as_nanos`
/// reports it.
pub uninterp spec fn nanos_of(d: Duration) -> u128;

/// `Duration::from_millis`: `ms` milliseconds.
#[verifier::external_body]
pub(crate) fn duration_from_millis(ms: u64) -> (r: Duration)
    ensures
        nanos_of(r) == ms as int * 1_000_000,
{
    Duration::from_millis(ms)
}

/// `Duration::from_secs`: `secs` seconds.
#[verifier::external_body]
pub(crate) fn duration_from_secs(secs: u64) -> (r: Duration)
    ensures
        nanos_of(r) == secs as int * 1_000_000_000,
{
    Duration::from_secs(secs)
}

/// `Duration::from_nanos`: `n` nanoseconds.
#[verifier::external_body]
pub(crate) fn duration_from_nanos(n: u64) -> (r: Duration)
    ensures
        nanos_of(r) == n,
{
    Duration::from_nanos(n)
}

/// `Duration::as_nanos`: the length of `d` in nanoseconds.
#[verifier::external_body]
pub(crate) fn duration_nanos(d: &Duration) -> (r: u128)
    ensures
        r == nanos_of(*d),
{
    d.as_nanos()
}

/// `Clone` of `Duration`, a `Copy` type: the same duration.
pub assume_specification[ <Duration as Clone>::clone ](d: &Duration) -> (r: Duration)
    ensures
        r == *d,
;

/// Nanoseconds in one millisecond.
pub const NANOS_PER_MILLI: u128 = 1_000_000;

/// Nanoseconds in one second.
pub const NANOS_PER_SEC: u128 = 1_000_000_000;

} // verus!
