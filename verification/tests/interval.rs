use core::cmp::Ordering;
use proto_types::{Duration, Interval, IntervalError, Timestamp};

fn ts(s: i64) -> Timestamp {
    Timestamp { seconds: s, nanos: 0 }
}

#[test]
fn test_constructor() {
    let t = ts(100);

    let empty = Interval::new(Some(t), Some(t)).unwrap();
    assert!(empty.is_empty());
    assert!(!empty.is_unspecified());

    let unspec = Interval::new(None, None).unwrap();
    assert!(unspec.is_unspecified());

    let open = Interval::new(Some(t), None).unwrap();
    assert!(!open.is_empty());
}

#[test]
fn test_partial_ord_ranking() {
    let t0 = ts(0);
    let t10 = ts(10);
    let t20 = ts(20);

    let empty = Interval::new(Some(t0), Some(t0)).unwrap(); // Duration 0
    let finite_small = Interval::new(Some(t0), Some(t10)).unwrap(); // Duration 10
    let finite_large = Interval::new(Some(t0), Some(t20)).unwrap(); // Duration 20
    let infinite_end = Interval::new(Some(t0), None).unwrap(); // Duration Infinity
    let infinite_start = Interval::new(None, Some(t20)).unwrap(); // Duration Infinity
    let infinite_all = Interval::new(None, None).unwrap(); // Duration Infinity

    assert!(empty < finite_small);
    assert!(finite_small < finite_large);
    assert!(finite_large < infinite_end);
    assert!(finite_large < infinite_start);
    assert!(infinite_end.partial_cmp(&infinite_start) == Some(Ordering::Equal));
    assert!(infinite_end.partial_cmp(&infinite_all) == Some(Ordering::Equal));
}

#[test]
fn interval_rejects_end_before_start() {
    assert_eq!(Interval::new(Some(ts(10)), Some(ts(9))), Err(IntervalError::EndTimeBeforeStartTime));
    let backwards = Interval { start_time: Some(ts(10)), end_time: Some(ts(9)) };
    assert!(!backwards.is_valid());
    assert_eq!(backwards.partial_cmp(&backwards), None);
    let one = Interval::new(
        Some(Timestamp { seconds: 5, nanos: 999_999_999 }),
        Some(Timestamp { seconds: 6, nanos: 0 }),
    )
    .unwrap();
    assert!(one.is_valid());
    assert_eq!(one.to_duration(), Ok(Duration { seconds: 0, nanos: 1 }));
}

#[test]
fn interval_to_duration_and_now() {
    let i = Interval::from_now_to(ts(100), ts(160));
    assert_eq!(i, Interval { start_time: Some(ts(100)), end_time: Some(ts(160)) });
    assert_eq!(i.to_duration(), Ok(Duration { seconds: 60, nanos: 0 }));
    let j = Interval::from_start_to_now(ts(100), ts(160));
    assert_eq!(i, j);
    assert_eq!(
        Interval { start_time: Some(ts(1)), end_time: None }.to_duration(),
        Err(IntervalError::ConversionError(
            "Cannot convert to Duration due to missing start or end time".to_string()
        ))
    );
    let longest = Interval { start_time: Some(ts(i64::MIN)), end_time: Some(ts(i64::MAX)) };
    assert!(matches!(longest.to_duration(), Err(IntervalError::ConversionError(_))));
    assert_eq!(i.partial_cmp(&longest), Some(Ordering::Less));
    assert_eq!(longest.span_nanos(), Some(18_446_744_073_709_551_615_000_000_000));
}
