use std::time::Duration;

use video_rs::time::{Rational, Time};

/// Seconds of a time, computed as the original backend-facing accessor did:
/// single precision, zero for a valueless time.
fn secs(time: &Time) -> f32 {
    match time.ticks {
        Some(t) => (t as f32) * (time.time_base.num as f32 / time.time_base.den as f32),
        None => 0.0,
    }
}

/// Seconds of a time in double precision, zero for a valueless time.
fn secs_f64(time: &Time) -> f64 {
    match time.ticks {
        Some(t) => (t as f64) * (time.time_base.num as f64 / time.time_base.den as f64),
        None => 0.0,
    }
}

/// The wall-clock duration of a time.
fn duration_of(time: &Time) -> Duration {
    Duration::from_secs_f64(secs_f64(time))
}

/// One second expressed in the engine's global time base of one microsecond
/// per tick, as the seconds-based constructors produce it.
fn from_micros(ticks: i64) -> Time {
    Time::new(Some(ticks), Rational::new(1, 1_000_000))
}

#[test]
fn test_new() {
    let time = Time::new(Some(2), Rational::new(3, 9));
    assert!(time.has_value());
    assert_eq!(secs(&time), 2.0 / 3.0);
    assert_eq!(time.into_value(), Some(2));
}

#[test]
fn test_with_time_base() {
    let time = Time::new(Some(2), Rational::new(3, 9));
    assert_eq!(secs(&time), 2.0 / 3.0);
    let time = time.with_time_base(Rational::new(1, 9));
    assert_eq!(secs(&time), 2.0 / 3.0);
    assert_eq!(time.into_value(), Some(6));
}

#[test]
fn test_from_nth_of_a_second() {
    let time = Time::from_nth_of_a_second(4);
    assert!(time.has_value());
    assert_eq!(secs(&time), 0.25);
    assert_eq!(secs_f64(&time), 0.25);
    assert_eq!(duration_of(&time), Duration::from_millis(250));
}

#[test]
fn test_from_units() {
    let time = Time::from_units(3, 5);
    assert!(time.has_value());
    assert_eq!(secs(&time), 3.0 / 5.0);
    assert_eq!(duration_of(&time), Duration::from_millis(600));
}

#[test]
fn test_zero() {
    let time = Time::zero();
    assert!(time.has_value());
    assert_eq!(secs(&time), 0.0);
    assert_eq!(secs_f64(&time), 0.0);
    assert_eq!(duration_of(&time), Duration::ZERO);
    let time = Time::zero();
    assert_eq!(time.into_value(), Some(0));
}

#[test]
fn test_aligned_with() {
    let a = Time::from_units(3, 16);
    let b = Time::from_units(1, 8);
    let aligned = a.aligned_with(&b);
    assert_eq!(aligned.lhs, Some(3));
    assert_eq!(aligned.rhs, Some(2));
}

#[test]
fn test_into_aligned_with() {
    let a = Time::from_units(2, 7);
    let b = Time::from_units(2, 3);
    let aligned = a.aligned_with(&b);
    assert_eq!(aligned.lhs, Some(2));
    assert_eq!(aligned.rhs, Some(5));
}

#[test]
fn test_into_parts() {
    let time = Time::new(Some(1), Rational::new(2, 3));
    assert_eq!(time.into_parts(), (Some(1), Rational::new(2, 3)));
}

#[test]
fn test_into_value_none() {
    let time = Time::new(None, Rational::new(0, 0));
    assert_eq!(time.into_value(), None);
}

#[test]
fn test_add() {
    let a = from_micros(200_000);
    let b = from_micros(300_000);
    assert_eq!(a.aligned_with(&b).add(), from_micros(500_000));
}

#[test]
fn test_subtract() {
    let a = from_micros(800_000);
    let b = from_micros(400_000);
    assert_eq!(a.aligned_with(&b).subtract(), from_micros(400_000));
}

#[test]
fn valueless_time_stays_valueless() {
    let none = Time::new(None, Rational::new(1, 90_000));
    assert!(!none.has_value());
    assert_eq!(secs(&none), 0.0);
    assert_eq!(duration_of(&none), Duration::ZERO);
    let sum = none.aligned_with(&Time::from_units(7, 30)).add();
    assert!(!sum.has_value());
    let diff = none.aligned_with(&Time::from_units(7, 30)).subtract();
    assert!(!diff.has_value());
}

#[test]
fn add_matches_seconds_arithmetic() {
    let a = from_micros(200_000);
    let b = from_micros(300_000);
    let sum = a.aligned_with(&b).add();
    assert!((secs_f64(&sum) - (secs_f64(&a) + secs_f64(&b))).abs() < 1e-9);
    assert!((secs_f64(&sum) - 0.5).abs() < 1e-9);
}

#[test]
fn subtract_matches_seconds_arithmetic() {
    let a = Time::new(Some(3), Rational::new(2, 32));
    let b = Time::from_nth_of_a_second(4);
    let diff = a.aligned_with(&b).subtract();
    assert!((secs_f64(&diff) - (secs_f64(&a) - secs_f64(&b))).abs() < 0.001);
}

#[test]
fn rescale_rounds_to_nearest() {
    // 2 ticks of 1/3 second are 0.667 seconds: 11 ticks of 1/16 second,
    // rounding 10.67 up.
    let time = Time::new(Some(2), Rational::new(1, 3));
    let rescaled = time.with_time_base(Rational::new(1, 16));
    assert_eq!(rescaled.into_value(), Some(11));
    // Negative ticks round away from zero.
    let time = Time::new(Some(-3), Rational::new(1, 2));
    let rescaled = time.with_time_base(Rational::new(1, 3));
    assert_eq!(rescaled.into_value(), Some(-5));
}
