use video_rs::time::{Rational, Time};

fn t(value: i64, num: i32, den: i32) -> Time {
    Time::new(Some(value), Rational::new(num, den))
}

#[test]
fn add_in_the_same_time_base() {
    assert_eq!(t(1000, 1, 1000).plus(t(2500, 1, 1000)), t(3500, 1, 1000));
    assert_eq!(t(1000, 1, 1000).minus(t(2500, 1, 1000)), t(-1500, 1, 1000));
}

#[test]
fn add_in_different_time_bases_is_exact() {
    // 1 s (in ms) + 1 s (in 1/90000 s) = 2 s, in 1/90_000_000 s.
    let sum = t(1000, 1, 1000).plus(t(90000, 1, 90000));
    assert_eq!(sum, t(180_000_000, 1, 90_000_000));
    // 3 units of 2/3 s + 1 unit of 1/2 s = 2.5 s, in sixths.
    assert_eq!(t(3, 2, 3).plus(t(1, 1, 2)), t(15, 1, 6));
}

#[test]
fn unknown_times_stay_unknown() {
    let unknown = Time::new(None, Rational::new(1, 1000));
    assert_eq!(unknown.plus(t(1, 1, 1000)).into_value(), None);
    assert_eq!(t(1, 1, 1000).plus(unknown).into_value(), None);
    assert!(!unknown.is_before(&t(1, 1, 1000)));
}

#[test]
fn overflow_has_no_value() {
    assert_eq!(t(i64::MAX, 1, 1000).plus(t(1, 1, 1000)).into_value(), None);
}

#[test]
fn comparison_across_time_bases() {
    assert!(t(999, 1, 1000).is_before(&t(1, 1, 1)));
    assert!(!t(1000, 1, 1000).is_before(&t(1, 1, 1)));
    assert!(!t(1, 1, 1).is_before(&t(1000, 1, 1000)));
    // A negative denominator flips the sign of the time base.
    assert!(t(1, 1, -1).is_before(&t(0, 1, 1)));
}
