use chrono::Duration;
use num_chrono_duration::NumChronoDuration;
use num_chrono_duration::Overflow;
use num_chrono_duration::Unit;
use num_chrono_duration::to_duration;

#[test]
fn one_nanosecond() {
    assert_eq!(to_duration(1, Unit::Nanosecond), Ok(Duration::nanoseconds(1)));
    assert_eq!(1.nanoseconds(), Duration::nanoseconds(1));
}

#[test]
fn one_hour() {
    assert_eq!(to_duration(1, Unit::Hour), Ok(Duration::nanoseconds(3_600_000_000_000)));
    assert_eq!(1.hours(), Duration::hours(1));
}

#[test]
fn one_day() {
    assert_eq!(to_duration(1, Unit::Day), Ok(Duration::nanoseconds(86_400_000_000_000)));
    assert_eq!(1.days(), Duration::days(1));
}

#[test]
fn one_week() {
    assert_eq!(to_duration(1, Unit::Week), Ok(Duration::nanoseconds(604_800_000_000_000)));
    assert_eq!(1.weeks(), Duration::weeks(1));
}

#[test]
fn minus_one_second() {
    assert_eq!(to_duration(-1, Unit::Second), Ok(Duration::nanoseconds(-1_000_000_000)));
    assert_eq!((-1).seconds(), Duration::nanoseconds(-1_000_000_000));
}

#[test]
fn max_value_of_weeks_overflows() {
    assert_eq!(to_duration(i64::MAX, Unit::Week), Err(Overflow));
}

#[test]
fn one_of_each_unit_matches_its_scale_factor() {
    let scales: [(Unit, i64); 8] = [
        (Unit::Nanosecond, 1),
        (Unit::Microsecond, 1_000),
        (Unit::Millisecond, 1_000_000),
        (Unit::Second, 1_000_000_000),
        (Unit::Minute, 60_000_000_000),
        (Unit::Hour, 3_600_000_000_000),
        (Unit::Day, 86_400_000_000_000),
        (Unit::Week, 604_800_000_000_000),
    ];
    for (unit, scale) in scales {
        assert_eq!(to_duration(1, unit), Ok(Duration::nanoseconds(scale)));
    }
}

#[test]
fn scaling_matches_direct_construction() {
    assert_eq!(to_duration(17, Unit::Microsecond), Ok(Duration::nanoseconds(17_000)));
    assert_eq!(to_duration(-3, Unit::Millisecond), Ok(Duration::nanoseconds(-3_000_000)));
    assert_eq!(to_duration(90, Unit::Minute), Ok(Duration::nanoseconds(5_400_000_000_000)));
    assert_eq!(to_duration(2, Unit::Day), Ok(Duration::nanoseconds(172_800_000_000_000)));
}

#[test]
fn addition_is_linear() {
    let two = to_duration(2, Unit::Hour).unwrap();
    let three = to_duration(3, Unit::Hour).unwrap();
    assert_eq!(two + three, to_duration(5, Unit::Hour).unwrap());

    let a = to_duration(-7, Unit::Minute).unwrap();
    let b = to_duration(12, Unit::Minute).unwrap();
    assert_eq!(a + b, to_duration(5, Unit::Minute).unwrap());
}

#[test]
fn boundary_of_the_nanosecond_range() {
    assert_eq!(to_duration(i64::MAX, Unit::Nanosecond), Ok(Duration::nanoseconds(i64::MAX)));
    assert_eq!(to_duration(i64::MIN, Unit::Nanosecond), Ok(Duration::nanoseconds(i64::MIN)));
    assert_eq!(
        to_duration(9_223_372_036, Unit::Second),
        Ok(Duration::nanoseconds(9_223_372_036_000_000_000))
    );
    assert_eq!(to_duration(9_223_372_037, Unit::Second), Err(Overflow));
    assert_eq!(to_duration(-9_223_372_037, Unit::Second), Err(Overflow));
    assert_eq!(to_duration(i64::MAX, Unit::Second), Err(Overflow));
}

#[test]
fn methods_match_chrono_constructors() {
    assert_eq!(25.nanoseconds(), Duration::nanoseconds(25));
    assert_eq!(25.microseconds(), Duration::microseconds(25));
    assert_eq!(25.milliseconds(), Duration::milliseconds(25));
    assert_eq!(25.seconds(), Duration::seconds(25));
    assert_eq!(25.minutes(), Duration::minutes(25));
    assert_eq!(25.hours(), Duration::hours(25));
    assert_eq!(25.days(), Duration::days(25));
    assert_eq!(25.weeks(), Duration::weeks(25));
}

#[test]
fn methods_at_the_ends_of_i32() {
    assert_eq!(i32::MAX.weeks(), Duration::weeks(i64::from(i32::MAX)));
    assert_eq!(i32::MIN.weeks(), Duration::weeks(i64::from(i32::MIN)));
    assert_eq!(i32::MIN.nanoseconds(), Duration::nanoseconds(-2_147_483_648));
    assert_eq!(i32::MAX.milliseconds(), Duration::nanoseconds(2_147_483_647_000_000));
}

#[test]
fn negative_counts_in_every_method() {
    assert_eq!((-4).microseconds(), Duration::nanoseconds(-4_000));
    assert_eq!((-4).minutes(), Duration::nanoseconds(-240_000_000_000));
    assert_eq!((-4).hours(), Duration::nanoseconds(-14_400_000_000_000));
    assert_eq!((-4).days(), Duration::nanoseconds(-345_600_000_000_000));
    assert_eq!((-4).weeks(), Duration::nanoseconds(-2_419_200_000_000_000));
}

#[test]
fn duration_added_to_a_date() {
    let start = chrono::NaiveDate::from_ymd_opt(2020, 1, 1).unwrap();
    let later = start + 1.weeks();
    assert_eq!(later, chrono::NaiveDate::from_ymd_opt(2020, 1, 8).unwrap());
}
