//! The unit table and the conversion itself.

use vstd::prelude::*;
use crate::chrono_api::delta_days;
use crate::chrono_api::delta_hours;
use crate::chrono_api::delta_microseconds;
use crate::chrono_api::delta_milliseconds;
use crate::chrono_api::delta_minutes;
use crate::chrono_api::delta_nanoseconds;
use crate::chrono_api::delta_seconds;
use crate::chrono_api::delta_weeks;
use crate::chrono_api::duration_nanos;

verus! {

/// The number of nanoseconds in one microsecond.
pub const NANOS_PER_MICROSECOND: i64 = 1_000;
/// The number of nanoseconds in one millisecond.
pub const NANOS_PER_MILLISECOND: i64 = 1_000_000;
/// The number of nanoseconds in one second.
pub const NANOS_PER_SECOND: i64 = 1_000_000_000;
/// The number of nanoseconds in one minute.
pub const NANOS_PER_MINUTE: i64 = 60_000_000_000;
/// The number of nanoseconds in one hour.
pub const NANOS_PER_HOUR: i64 = 3_600_000_000_000;
/// The number of nanoseconds in one day.
pub const NANOS_PER_DAY: i64 = 86_400_000_000_000;
/// The number of nanoseconds in one week.
pub const NANOS_PER_WEEK: i64 = 604_800_000_000_000;

/// The eight supported time units.
#[derive(Clone, Copy, Debug, PartialEq, Eq, Structural)]
pub enum Unit {
    Nanosecond,
    Microsecond,
    Millisecond,
    Second,
    Minute,
    Hour,
    Day,
    Week,
}

/// The exact number of nanoseconds in one of the given unit.
pub open spec fn scale_factor(unit: Unit) -> int {
    match unit {
        Unit::Nanosecond => 1int,
        Unit::Microsecond => NANOS_PER_MICROSECOND as int,
        Unit::Millisecond => NANOS_PER_MILLISECOND as int,
        Unit::Second => NANOS_PER_SECOND as int,
        Unit::Minute => NANOS_PER_MINUTE as int,
        Unit::Hour => NANOS_PER_HOUR as int,
        Unit::Day => NANOS_PER_DAY as int,
        Unit::Week => NANOS_PER_WEEK as int,
    }
}

/// The span, in nanoseconds, that `value` of the given unit denotes.
pub open spec fn scaled_nanos(value: int, unit: Unit) -> int {
    value * scale_factor(unit)
}

/// The one failure this crate knows: the requested span does not fit in a
/// signed 64-bit count of nanoseconds.
#[derive(Clone, Copy, Debug, PartialEq, Eq, Structural)]
pub struct Overflow;

/// Returns the given unit's scale factor to nanoseconds.
pub fn unit_scale(unit: Unit) -> (s: i64)
    ensures
        s as int == scale_factor(unit),
{
    match unit {
        Unit::Nanosecond => 1,
        Unit::Microsecond => NANOS_PER_MICROSECOND,
        Unit::Millisecond => NANOS_PER_MILLISECOND,
        Unit::Second => NANOS_PER_SECOND,
        Unit::Minute => NANOS_PER_MINUTE,
        Unit::Hour => NANOS_PER_HOUR,
        Unit::Day => NANOS_PER_DAY,
        Unit::Week => NANOS_PER_WEEK,
    }
}

/// Converts `value` of the given unit to a `chrono` duration spanning
/// exactly `value * scale_factor(unit)` nanoseconds.
///
/// Overflow policy: the scaled span must fit in a signed 64-bit count of
/// nanoseconds. A value whose scaled span falls outside that range is
/// rejected with `Overflow`; it is never truncated, wrapped or clamped.
pub fn to_duration(value: i64, unit: Unit) -> (r: Result<chrono::TimeDelta, Overflow>)
    ensures
        r is Ok <==> i64::MIN <= scaled_nanos(value as int, unit) <= i64::MAX,
        r is Ok ==> duration_nanos(r->Ok_0) == scaled_nanos(value as int, unit),
{
    let scale: i64 = unit_scale(unit);
    match value.checked_mul(scale) {
        Some(total) => Ok(delta_nanoseconds(total)),
        None => Err(Overflow),
    }
}

/// Law: one of any unit spans exactly that unit's scale factor in
/// nanoseconds, the same span as a duration built from that factor as a
/// plain nanosecond count.
pub proof fn lemma_one_of_unit(unit: Unit)
    ensures
        scaled_nanos(1, unit) == scale_factor(unit),
{
}

/// Law (linearity): the spans of two counts of one unit add up to the
/// span of their sum. Since `chrono` adds durations by adding their
/// nanosecond spans, converting `a`, converting `b` and adding the two
/// durations gives the duration that converting `a + b` gives, whenever
/// that sum is representable.
pub proof fn lemma_linearity(a: int, b: int, unit: Unit)
    ensures
        scaled_nanos(a, unit) + scaled_nanos(b, unit) == scaled_nanos(a + b, unit),
{
    assert((a + b) * scale_factor(unit) == a * scale_factor(unit) + b * scale_factor(unit))
        by (nonlinear_arith);
}

/// Creates a new `chrono` duration from the specified number.
///
/// Every method returns the duration spanning exactly the receiver's
/// value times the unit's scale factor, in nanoseconds.
pub trait NumChronoDuration {
    /// The receiver's numeric value.
    spec fn value_int(&self) -> int;

    /// Creates a new Duration from the specified number of nanoseconds.
    fn nanoseconds(&self) -> (r: chrono::TimeDelta)
        ensures
            duration_nanos(r) == scaled_nanos(self.value_int(), Unit::Nanosecond),
    ;

    /// Creates a new Duration from the specified number of microseconds.
    fn microseconds(&self) -> (r: chrono::TimeDelta)
        ensures
            duration_nanos(r) == scaled_nanos(self.value_int(), Unit::Microsecond),
    ;

    /// Creates a new Duration from the specified number of milliseconds.
    fn milliseconds(&self) -> (r: chrono::TimeDelta)
        ensures
            duration_nanos(r) == scaled_nanos(self.value_int(), Unit::Millisecond),
    ;

    /// Creates a new Duration from the specified number of seconds.
    fn seconds(&self) -> (r: chrono::TimeDelta)
        ensures
            duration_nanos(r) == scaled_nanos(self.value_int(), Unit::Second),
    ;

    /// Creates a new Duration from the specified number of minutes.
    fn minutes(&self) -> (r: chrono::TimeDelta)
        ensures
            duration_nanos(r) == scaled_nanos(self.value_int(), Unit::Minute),
    ;

    /// Creates a new Duration from the specified number of hours.
    fn hours(&self) -> (r: chrono::TimeDelta)
        ensures
            duration_nanos(r) == scaled_nanos(self.value_int(), Unit::Hour),
    ;

    /// Creates a new Duration from the specified number of days.
    fn days(&self) -> (r: chrono::TimeDelta)
        ensures
            duration_nanos(r) == scaled_nanos(self.value_int(), Unit::Day),
    ;

    /// Creates a new Duration from the specified number of weeks.
    fn weeks(&self) -> (r: chrono::TimeDelta)
        ensures
            duration_nanos(r) == scaled_nanos(self.value_int(), Unit::Week),
    ;
}

impl NumChronoDuration for i32 {
    open spec fn value_int(&self) -> int {
        *self as int
    }

    fn nanoseconds(&self) -> (r: chrono::TimeDelta) {
        delta_nanoseconds(*self as i64)
    }

    fn microseconds(&self) -> (r: chrono::TimeDelta) {
        delta_microseconds(*self as i64)
    }

    fn milliseconds(&self) -> (r: chrono::TimeDelta) {
        delta_milliseconds(*self as i64)
    }

    fn seconds(&self) -> (r: chrono::TimeDelta) {
        delta_seconds(*self as i64)
    }

    fn minutes(&self) -> (r: chrono::TimeDelta) {
        delta_minutes(*self as i64)
    }

    fn hours(&self) -> (r: chrono::TimeDelta) {
        delta_hours(*self as i64)
    }

    fn days(&self) -> (r: chrono::TimeDelta) {
        delta_days(*self as i64)
    }

    fn weeks(&self) -> (r: chrono::TimeDelta) {
        delta_weeks(*self as i64)
    }
}

} // verus!
