//! The trusted boundary to `chrono`: its duration type, a nanosecond view
//! of that type, and one wrapper per constructor that this crate calls.
//!
//! `chrono::TimeDelta` stores a duration as whole seconds plus a nanosecond
//! remainder in `0 .. 1_000_000_000`, restricted to the range of `i64`
//! milliseconds on either side of zero. Every duration value therefore
//! spans one definite integer count of nanoseconds, which is the view the
//! contracts below speak of.

use vstd::prelude::*;

verus! {

#[verifier::external_type_specification]
#[verifier::external_body]
pub struct ExTimeDelta(chrono::TimeDelta);

/// The exact span of a `chrono::TimeDelta`, as a whole number of
/// nanoseconds: its seconds times one billion, plus its nanosecond
/// remainder.
pub uninterp spec fn duration_nanos(d: chrono::TimeDelta) -> int;

/// The largest whole-second count that `chrono` accepts when building a
/// duration from seconds (or from minutes, hours, days or weeks, after
/// scaling to seconds): `i64::MAX / 1000`, from its range of `i64`
/// milliseconds.
pub const MAX_DELTA_SECONDS: i64 = 9_223_372_036_854_775;

/// Relies on `chrono::TimeDelta::nanoseconds`: builds the duration that
/// spans exactly the given count of nanoseconds; infallible.
#[verifier::external_body]
pub(crate) fn delta_nanoseconds(count: i64) -> (r: chrono::TimeDelta)
    ensures
        duration_nanos(r) == count as int,
{
    chrono::TimeDelta::nanoseconds(count)
}

/// Relies on `chrono::TimeDelta::microseconds`: builds the duration of
/// one thousand nanoseconds per microsecond given; infallible.
#[verifier::external_body]
pub(crate) fn delta_microseconds(count: i64) -> (r: chrono::TimeDelta)
    ensures
        duration_nanos(r) == count * 1_000,
{
    chrono::TimeDelta::microseconds(count)
}

/// Relies on `chrono::TimeDelta::milliseconds`: builds the duration of
/// one million nanoseconds per millisecond given; panics only on a count
/// below `-i64::MAX`, that is on `i64::MIN` alone.
#[verifier::external_body]
pub(crate) fn delta_milliseconds(count: i64) -> (r: chrono::TimeDelta)
    requires
        count != i64::MIN,
    ensures
        duration_nanos(r) == count * 1_000_000,
{
    chrono::TimeDelta::milliseconds(count)
}

/// Relies on `chrono::TimeDelta::seconds`: builds the duration of one
/// billion nanoseconds per second given; panics outside
/// `-i64::MAX / 1000 ..= i64::MAX / 1000` seconds.
#[verifier::external_body]
pub(crate) fn delta_seconds(count: i64) -> (r: chrono::TimeDelta)
    requires
        -MAX_DELTA_SECONDS <= count <= MAX_DELTA_SECONDS,
    ensures
        duration_nanos(r) == count * 1_000_000_000,
{
    chrono::TimeDelta::seconds(count)
}

/// Relies on `chrono::TimeDelta::minutes`: scales the count by 60 to
/// seconds with an overflow check, then builds the duration from seconds;
/// panics when the scaled count leaves the range that seconds accept.
#[verifier::external_body]
pub(crate) fn delta_minutes(count: i64) -> (r: chrono::TimeDelta)
    requires
        -MAX_DELTA_SECONDS <= count * 60 <= MAX_DELTA_SECONDS,
    ensures
        duration_nanos(r) == count * 60_000_000_000,
{
    chrono::TimeDelta::minutes(count)
}

/// Relies on `chrono::TimeDelta::hours`: scales the count by 3600 to
/// seconds with an overflow check, then builds the duration from seconds;
/// panics when the scaled count leaves the range that seconds accept.
#[verifier::external_body]
pub(crate) fn delta_hours(count: i64) -> (r: chrono::TimeDelta)
    requires
        -MAX_DELTA_SECONDS <= count * 3_600 <= MAX_DELTA_SECONDS,
    ensures
        duration_nanos(r) == count * 3_600_000_000_000,
{
    chrono::TimeDelta::hours(count)
}

/// Relies on `chrono::TimeDelta::days`: scales the count by 86,400 to
/// seconds with an overflow check, then builds the duration from seconds;
/// panics when the scaled count leaves the range that seconds accept.
#[verifier::external_body]
pub(crate) fn delta_days(count: i64) -> (r: chrono::TimeDelta)
    requires
        -MAX_DELTA_SECONDS <= count * 86_400 <= MAX_DELTA_SECONDS,
    ensures
        duration_nanos(r) == count * 86_400_000_000_000,
{
    chrono::TimeDelta::days(count)
}

/// Relies on `chrono::TimeDelta::weeks`: scales the count by 604,800 to
/// seconds with an overflow check, then builds the duration from seconds;
/// panics when the scaled count leaves the range that seconds accept.
#[verifier::external_body]
pub(crate) fn delta_weeks(count: i64) -> (r: chrono::TimeDelta)
    requires
        -MAX_DELTA_SECONDS <= count * 604_800 <= MAX_DELTA_SECONDS,
    ensures
        duration_nanos(r) == count * 604_800_000_000_000,
{
    chrono::TimeDelta::weeks(count)
}

} // verus!
