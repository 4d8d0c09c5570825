use proto_types::{TimeOfDay, TimeOfDayError};

fn t(h: i32, m: i32, s: i32, n: i32) -> Result<TimeOfDay, TimeOfDayError> {
    TimeOfDay::new(h, m, s, n)
}

#[test]
fn time_of_day_test_validation() {
    assert!(t(0, 0, 0, 0).is_ok());
    assert!(t(23, 59, 59, 999_999_999).is_ok());

    assert_eq!(t(24, 0, 0, 0), Err(TimeOfDayError::InvalidHours));
    assert_eq!(t(-1, 0, 0, 0), Err(TimeOfDayError::InvalidHours));

    assert_eq!(t(12, 60, 0, 0), Err(TimeOfDayError::InvalidMinutes));

    assert_eq!(t(12, 0, 60, 0), Err(TimeOfDayError::InvalidSeconds));

    assert_eq!(t(12, 0, 0, 1_000_000_000), Err(TimeOfDayError::InvalidNanos));
}

#[test]
fn test_constants() {
    let mid = TimeOfDay::midnight();
    assert_eq!(mid.hours, 0);
    assert_eq!(mid.nanos_since_midnight(), 0);

    let noon = TimeOfDay::noon();
    assert_eq!(noon.hours, 12);
    // 12 * 60 * 60 * 1e9
    assert_eq!(noon.nanos_since_midnight(), 12 * 3600 * 1_000_000_000);
}

#[test]
fn time_of_day_test_ordering() {
    let t1 = t(10, 0, 0, 0).unwrap();
    let t2 = t(11, 0, 0, 0).unwrap();
    let t3 = t(10, 0, 0, 1).unwrap(); // 1ns later

    assert!(t1 < t2);
    assert!(t1 < t3); // Check nanos precision
    assert!(t3 < t2);
}

#[test]
fn test_display() {
    let time = t(12, 30, 45, 0).unwrap();
    assert_eq!(time.to_string(), "12:30:45");

    let precise = t(12, 30, 45, 123).unwrap();
    assert_eq!(precise.to_string(), "12:30:45.000000123");
}

#[test]
fn time_of_day_named_hours() {
    assert_eq!(TimeOfDay::one_am(), t(1, 0, 0, 0).unwrap());
    assert_eq!(TimeOfDay::eleven_am(), t(11, 0, 0, 0).unwrap());
    assert_eq!(TimeOfDay::one_pm(), t(13, 0, 0, 0).unwrap());
    assert_eq!(TimeOfDay::six_pm(), t(18, 0, 0, 0).unwrap());
    assert_eq!(TimeOfDay::eleven_pm(), t(23, 0, 0, 0).unwrap());
    assert!(TimeOfDay::eleven_pm().is_valid());
    assert!(!TimeOfDay { hours: 0, minutes: 0, seconds: 0, nanos: -1 }.is_valid());
    assert_eq!(t(23, 59, 59, 999_999_999).unwrap().nanos_since_midnight(), 86_399_999_999_999);
    // Fields out of range are still ordered by their count of nanoseconds.
    let odd = TimeOfDay { hours: 0, minutes: 60, seconds: 0, nanos: 0 };
    assert_eq!(odd.partial_cmp(&TimeOfDay::one_am()), Some(core::cmp::Ordering::Equal));
    assert_eq!(TimeOfDay { hours: i32::MAX, minutes: 0, seconds: 0, nanos: 0 }.wide_nanos_since_midnight(), 2_147_483_647i128 * 3_600_000_000_000);
}
