use core::cmp::Ordering;
use core::time::Duration as StdDuration;
use proto_types::{Duration, Timestamp};

fn add_std(t: Timestamp, d: StdDuration) -> Timestamp {
    t.saturating_add_unsigned(d.as_secs(), d.subsec_nanos())
}

fn sub_std(t: Timestamp, d: StdDuration) -> Timestamp {
    t.saturating_sub_unsigned(d.as_secs(), d.subsec_nanos())
}

#[test]
fn timestamp_operations_test_simple_addition() {
    let t = Timestamp::new(100, 500);
    let d = Duration::new(50, 100);
    let res = t + d;
    assert_eq!(res, Timestamp::new(150, 600));

    let d = StdDuration::new(50, 100);
    let res = add_std(t, d);
    assert_eq!(res, Timestamp::new(150, 600));
}

#[test]
fn timestamp_operations_test_nano_overflow_addition() {
    let t = Timestamp::new(100, 900_000_000);
    let d = Duration::new(0, 200_000_000);
    let res = t + d;
    assert_eq!(res, Timestamp::new(101, 100_000_000));

    let d = StdDuration::new(0, 200_000_000);
    let res = add_std(t, d);
    assert_eq!(res, Timestamp::new(101, 100_000_000));
}

#[test]
fn timestamp_operations_test_simple_subtraction() {
    let t = Timestamp::new(100, 500);
    let d = Duration::new(50, 100);
    let res = t - d;
    assert_eq!(res, Timestamp::new(50, 400));

    let d = StdDuration::new(50, 100);
    let res = sub_std(t, d);
    assert_eq!(res, Timestamp::new(50, 400));
}

#[test]
fn timestamp_operations_test_subtraction_crossing_zero() {
    let t = Timestamp::new(100, 100);
    let d = Duration::new(200, 0);
    let res = t - d;
    assert_eq!(res, Timestamp::new(-100, 100));

    let d = StdDuration::new(200, 0);
    let res = sub_std(t, d);
    assert_eq!(res, Timestamp::new(-100, 100));
}

#[test]
fn timestamp_operations_test_subtraction_borrowing_nanos() {
    let t = Timestamp::new(10, 100);
    let d = Duration::new(0, 200);
    let res = t - d;
    assert_eq!(res, Timestamp::new(9, 999_999_900));

    let d = StdDuration::new(0, 200);
    let res = sub_std(t, d);
    assert_eq!(res, Timestamp::new(9, 999_999_900));
}

#[test]
fn timestamp_operations_test_add_saturation_max() {
    let t = Timestamp::new(i64::MAX, 0);
    let d = Duration::new(1, 0);
    let res = t + d;
    assert_eq!(res.seconds, i64::MAX);

    let d = StdDuration::new(1, 0);
    let res = add_std(t, d);
    assert_eq!(res.seconds, i64::MAX);
}

#[test]
fn timestamp_operations_test_add_saturation_with_nanos() {
    let t = Timestamp::new(i64::MAX, 0);
    let d = Duration::new(0, 2_000_000_000);
    let res = t + d;
    assert_eq!(res.seconds, i64::MAX);

    let d = StdDuration::new(0, 2_000_000_000);
    let res = add_std(t, d);
    assert_eq!(res.seconds, i64::MAX);
}

#[test]
fn timestamp_operations_test_sub_saturation_min() {
    let t = Timestamp::new(i64::MIN, 0);
    let d = Duration::new(1, 0);
    let res = t - d;
    assert_eq!(res.seconds, i64::MIN);

    let d = StdDuration::new(1, 0);
    let res = sub_std(t, d);
    assert_eq!(res.seconds, i64::MIN);
}

#[test]
fn test_sub_double_negative_saturation() {
    let t = Timestamp::new(i64::MAX, 0);
    let d = Duration::new(-1, 0);
    let res = t - d;
    assert_eq!(res.seconds, i64::MAX);
}

#[test]
fn test_add_negative_duration() {
    let t = Timestamp::new(100, 0);
    let d = Duration::new(-50, 0);
    let res = t + d;
    assert_eq!(res, Timestamp::new(50, 0));
}

#[test]
fn timestamp_saturates_without_error() {
    assert_eq!(Timestamp::new(i64::MAX, 0) + Duration::new(1, 0), Timestamp { seconds: i64::MAX, nanos: 0 });
    assert_eq!(Timestamp::new(i64::MAX, 5) + Duration::new(0, 999_999_999), Timestamp { seconds: i64::MAX, nanos: 999_999_999 });
    assert_eq!(Timestamp::new(i64::MIN, 5) - Duration::new(0, 6), Timestamp { seconds: i64::MIN, nanos: 0 });
    assert_eq!(add_std(Timestamp::new(0, 0), StdDuration::new(u64::MAX, 0)), Timestamp { seconds: i64::MAX, nanos: 0 });
    assert_eq!(sub_std(Timestamp::new(0, 0), StdDuration::new(u64::MAX, 0)), Timestamp { seconds: i64::MIN, nanos: 0 });
}

#[test]
fn timestamp_new_normalizes() {
    assert_eq!(Timestamp::new(10, -1), Timestamp { seconds: 9, nanos: 999_999_999 });
    assert_eq!(Timestamp::new(-10, -1), Timestamp { seconds: -11, nanos: 999_999_999 });
    assert_eq!(Timestamp::new(10, 1_500_000_000), Timestamp { seconds: 11, nanos: 500_000_000 });
    assert_eq!(Timestamp::new(i64::MIN, -1), Timestamp { seconds: i64::MIN, nanos: 0 });
    assert_eq!(Timestamp::new(i64::MAX, 1_000_000_000), Timestamp { seconds: i64::MAX, nanos: 999_999_999 });
    let mut raw = Timestamp { seconds: 1, nanos: -1_500_000_000 };
    raw.normalize();
    assert_eq!(raw, Timestamp { seconds: -1, nanos: 500_000_000 });
    assert_eq!(Timestamp { seconds: 0, nanos: 2_000_000_000 }.normalized(), Timestamp { seconds: 2, nanos: 0 });
}

#[test]
fn timestamp_order_is_by_seconds_then_nanos() {
    assert!(Timestamp::new(1, 5) < Timestamp::new(1, 6));
    assert!(Timestamp::new(-1, 999_999_999) < Timestamp::new(0, 0));
    assert_eq!(Timestamp::new(3, 3).partial_cmp(&Timestamp::new(3, 3)), Some(Ordering::Equal));
    assert_eq!(Timestamp::new(4, 0).partial_cmp(&Timestamp::new(3, 999)), Some(Ordering::Greater));
    assert_eq!(Timestamp::default(), Timestamp { seconds: 0, nanos: 0 });
}

#[test]
fn timestamp_operators_on_references() {
    let t = Timestamp::new(100, 900_000_000);
    let d = Duration::new(0, 200_000_000);
    assert_eq!(&t + &d, Timestamp::new(101, 100_000_000));
    assert_eq!(&t - &d, Timestamp::new(100, 700_000_000));
    assert_eq!(t.saturating_add(&d), t + d);
    assert_eq!(t.saturating_sub(&d), t - d);
}
