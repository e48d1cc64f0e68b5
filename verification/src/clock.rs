use vstd::prelude::*;

verus! {

/// Milliseconds in two days: the safety margin before expiry at which a
/// certificate must be renewed.
pub const TWO_DAYS_MS: i64 = 172_800_000;

/// Reads the wall clock through `chrono::Utc::now().timestamp_millis()`.
/// The value depends on the time of the call, so nothing is stated of it.
#[verifier::external_body]
pub(crate) fn now_millis() -> i64 {
    chrono::Utc::now().timestamp_millis()
}

/// The time `t`, in milliseconds since the Unix epoch, is one that the wall
/// clock gave. The clock may give any value, so nothing more of a reading
/// can be said; the predicate is closed, and only this module's
/// `wall_clock_now` establishes it, so that a contract stated over a
/// `wall_clock_reading` speaks of a time the clock gave, not of one that
/// the calling code chose.
pub closed spec fn wall_clock_reading(t: i64) -> bool {
    true
}

/// The time `t`, in nanoseconds, is one that a store's monotonic clock gave;
/// established only by `nanos_since`, as `wall_clock_reading` is by
/// `wall_clock_now`.
pub closed spec fn monotonic_clock_reading(t: i64) -> bool {
    true
}

/// Reads the wall clock, in milliseconds since the Unix epoch.
pub(crate) fn wall_clock_now() -> (r: i64)
    ensures
        wall_clock_reading(r),
{
    now_millis()
}

/// `std::time::Instant`, carried through without being looked into.
#[verifier::external_type_specification]
#[verifier::external_body]
pub struct ExInstant(std::time::Instant);

/// Reads the monotonic clock through `std::time::Instant::now`. The value
/// depends on the time of the call, so nothing is stated of it.
#[verifier::external_body]
pub(crate) fn instant_now() -> std::time::Instant {
    std::time::Instant::now()
}

/// The time elapsed since `start`, from `std::time::Instant::elapsed`. It
/// depends on the time of the call, so nothing is stated of it.
#[verifier::external_body]
fn elapsed_since(start: &std::time::Instant) -> core::time::Duration {
    start.elapsed()
}

/// The whole nanoseconds of a duration, from `core::time::Duration::as_nanos`.
/// Nothing is stated of the value.
#[verifier::external_body]
fn duration_nanos(d: &core::time::Duration) -> u128 {
    d.as_nanos()
}

/// The nanoseconds elapsed on the monotonic clock since `start`, held at
/// `i64::MAX` (about 292 years) beyond that.
pub(crate) fn nanos_since(start: &std::time::Instant) -> (r: i64)
    ensures
        r >= 0,
        monotonic_clock_reading(r),
{
    let ns = duration_nanos(&elapsed_since(start));
    if ns > i64::MAX as u128 {
        i64::MAX
    } else {
        ns as i64
    }
}

/// Whether `t` lies strictly before `now + TWO_DAYS_MS`, computed without overflow.
pub fn before_two_days_from(t: i64, now: i64) -> (r: bool)
    ensures
        r == (t < now + TWO_DAYS_MS),
{
    (t as i128) < (now as i128) + (TWO_DAYS_MS as i128)
}

} // verus!
