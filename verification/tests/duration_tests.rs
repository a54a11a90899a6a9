//! Boundary tests for the duration formatter.

use pwgen::duration::Seconds;

fn fmt(num: u128, den: u128) -> String {
    Seconds::new(num, den).format()
}

#[test]
fn one_second_below_two() {
    assert_eq!(fmt(1, 1), "1 second");
    assert_eq!(fmt(0, 1), "1 second");
    assert_eq!(fmt(19999, 10000), "1 second");
}

#[test]
fn two_seconds_at_two() {
    assert_eq!(fmt(2, 1), "2 seconds");
}

#[test]
fn fifty_nine_seconds() {
    assert_eq!(fmt(599, 10), "59 seconds");
    assert_eq!(fmt(59, 1), "59 seconds");
}

#[test]
fn one_minutes_at_sixty() {
    assert_eq!(fmt(60, 1), "1 minutes");
}

#[test]
fn minutes_to_hours_boundary() {
    assert_eq!(fmt(3540, 1), "59 minutes");
    assert_eq!(fmt(3541, 1), "1 hours");
}

#[test]
fn one_hours_at_3600() {
    assert_eq!(fmt(3600, 1), "1 hours");
}

#[test]
fn hours_to_days_boundary() {
    assert_eq!(fmt(82800, 1), "23 hours");
    assert_eq!(fmt(82801, 1), "1 days");
}

#[test]
fn days_to_months_boundary() {
    assert_eq!(fmt(2592000, 1), "30 days");
    assert_eq!(fmt(2592001, 1), "1 months");
}

#[test]
fn one_months_at_31_days() {
    assert_eq!(fmt(86400 * 31, 1), "1 months");
}

#[test]
fn one_years_at_365_days() {
    assert_eq!(fmt(365 * 86400, 1), "1 years");
}

#[test]
fn one_thousand_years() {
    // 86400 * 365.242374 * 1000 seconds, held exactly in tenths
    assert_eq!(fmt(315569411136, 10), "1 thousand years");
}

#[test]
fn huge_value_is_trillions() {
    assert_eq!(fmt(100000000000000000000, 1), "3 trillion years");
    assert_eq!(
        fmt(u128::MAX, 1),
        "10783122663758053382 trillion years"
    );
}
