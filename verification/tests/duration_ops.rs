use core::cmp::Ordering;
use proto_types::Duration;

fn dur(s: i64, n: i32) -> Duration {
    Duration { seconds: s, nanos: n }
}

#[test]
fn test_mul_overflow_checks() {
    // 1. Basic
    let d = dur(10, 0);
    assert_eq!(d * 2, dur(20, 0));

    // 2. Overflow i64 seconds via huge multiplier
    let huge = dur(i64::MAX / 2 + 100, 0);
    assert!(huge.checked_mul(2).is_none());

    // 3. Nanos overflow contributing to seconds overflow
    let edge = dur(i64::MAX, 0);
    assert!(edge.checked_mul(1).is_some());

    // i64::MAX s + 1s via nanos carry -> Overflow
    let edge_nanos = dur(i64::MAX - 1, 600_000_000);
    // * 2 -> (MAX-1)*2 s + 1.2s -> Overflow
    assert!(edge_nanos.checked_mul(2).is_none());
}

#[test]
fn test_div_bug_fix() {
    let numerator = dur(10_000_000_000, 0); // 10B seconds
    let divisor = 11_000_000_000; // 11B

    let res = numerator.checked_div(divisor).unwrap();
    assert_eq!(res.seconds, 0);
    assert_eq!(res.nanos, 909_090_909);
}

#[test]
fn test_div_edge_cases() {
    // Division by zero
    let d = dur(1, 0);
    assert!(d.checked_div(0).is_none());

    // Clean division
    let d = dur(1, 0);
    let res: Duration = d / 2;
    assert_eq!(res.seconds, 0);
    assert_eq!(res.nanos, 500_000_000);

    // Negative division
    let d = dur(-1, 0);
    let res: Duration = d / 2;
    assert_eq!(res.seconds, 0);
    assert_eq!(res.nanos, -500_000_000);
}

#[test]
fn duration_add_sub_with_carry_and_borrow() {
    let sum = dur(1, 900_000_000) + Duration::new(0, 200_000_000);
    assert_eq!(sum, dur(2, 100_000_000));

    let diff = dur(2, 100_000_000) - Duration::new(0, 200_000_000);
    assert_eq!(diff, dur(1, 900_000_000));

    let diff = dur(1, 0) - Duration::new(2, 0);
    assert_eq!(diff, dur(-1, 0));
}

#[test]
fn duration_order_ignores_normal_form() {
    let d1 = dur(1, 500);
    let d2 = Duration::new(1, 600);
    let d3 = Duration::new(2, 0);
    assert!(d1 < d2);
    assert!(d2 < d3);

    let unnormalized = dur(0, 1_500_000_000);
    let normalized = Duration::new(1, 500_000_000);
    assert_eq!(unnormalized.partial_cmp(&normalized), Some(Ordering::Equal));
}

#[test]
fn duration_checked_add_overflow_is_none() {
    assert_eq!(Duration::new(i64::MAX, 0).checked_add(&Duration::new(1, 0)), None);
    assert_eq!(Duration::new(i64::MIN, 0).checked_sub(&Duration::new(1, 0)), None);
    assert_eq!(
        Duration::new(i64::MAX, 0).checked_add(&Duration::new(0, 999_999_999)),
        Some(dur(i64::MAX, 999_999_999))
    );
}

#[test]
fn duration_total_nanos_round_trip() {
    for d in [dur(0, 0), dur(5, 7), dur(-5, -7), dur(0, -999_999_999), dur(i64::MAX, 999_999_999), dur(i64::MIN, -999_999_999)] {
        assert_eq!(Duration::from_total_nanos(d.total_nanos()), Some(d));
    }
    assert_eq!(dur(-3, -500_000_000).total_nanos(), -3_500_000_000);
    assert_eq!(Duration::from_total_nanos(-3_500_000_000), Some(dur(-3, -500_000_000)));
    assert_eq!(Duration::from_total_nanos(i128::MAX), None);
}

#[test]
fn duration_new_normalizes_and_saturates() {
    assert_eq!(Duration::new(1, -100), dur(0, 999_999_900));
    assert_eq!(Duration::new(-1, 100), dur(0, -999_999_900));
    assert_eq!(Duration::new(1, 1_500_000_000), dur(2, 500_000_000));
    assert_eq!(Duration::new(5, -2_000_000_001), dur(2, 999_999_999));
    assert_eq!(Duration::new(i64::MAX, 1_000_000_000), dur(i64::MAX, 999_999_999));
    assert_eq!(Duration::new(i64::MIN, -1_500_000_000), dur(i64::MIN, -999_999_999));
    assert_eq!(Duration::new(i64::MIN, 1_500_000_000), dur(i64::MIN + 2, -500_000_000));
}

#[test]
fn duration_with_plain_operands() {
    let d = dur(1, 900_000_000);
    let std = core::time::Duration::new(0, 200_000_000);
    let secs = i64::try_from(std.as_secs()).unwrap();
    assert_eq!(d.checked_add_raw(secs, i64::from(std.subsec_nanos())), Some(dur(2, 100_000_000)));
    assert_eq!(dur(2, 100_000_000).checked_sub_raw(0, 200_000_000), Some(dur(1, 900_000_000)));
    assert_eq!(dur(1, 0).checked_sub_raw(2, 0), Some(dur(-1, 0)));
    assert_eq!(dur(i64::MAX, 0).checked_add_raw(0, 1_000_000_000), None);
    assert_eq!(dur(1, 500).order_with_total(1_000_000_600), Ordering::Less);
    assert_eq!(dur(0, 1_500_000_000).order_with_total(1_500_000_000), Ordering::Equal);
    assert_eq!(dur(2, 0) * 3i32, dur(6, 0));
    assert_eq!(dur(7, 0) / 2i32, dur(3, 500_000_000));
    assert_eq!(dur(i64::MIN, 0).checked_div(-1), None);
    assert_eq!(dur(-7, 0).checked_div(2), Some(dur(-3, -500_000_000)));
    assert_eq!(dur(7, 0).checked_div(-2), Some(dur(-3, -500_000_000)));
}
