use proto_types::{Days, Duration, Hours, Minutes, Months, Seconds, Weeks, Years};

fn dur(s: i64, n: i32) -> Duration {
    Duration { seconds: s, nanos: n }
}

#[test]
fn test_canonical_display() {
    // Simple
    let d = dur(10, 0);
    assert_eq!(d.to_string(), "10s");

    // Fractional
    let d = dur(10, 500_000_000);
    assert_eq!(d.to_string(), "10.5s");

    // Small Fractional
    let d = dur(0, 1_000);
    assert_eq!(d.to_string(), "0.000001s");

    // Negative
    let d = dur(-10, -500_000_000);
    assert_eq!(d.to_string(), "-10.5s");

    // Negative Zero
    let d = dur(0, -500_000_000);
    assert_eq!(d.to_string(), "-0.5s");
}

#[test]
fn test_unit_display_formatting() {
    // Singular
    assert_eq!(Seconds { value: 1 }.to_string(), "1 second");
    assert_eq!(Minutes { value: 1 }.to_string(), "1 minute");
    assert_eq!(Hours { value: 1 }.to_string(), "1 hour");
    assert_eq!(Days { value: 1 }.to_string(), "1 day");
    assert_eq!(Weeks { value: 1 }.to_string(), "1 week");
    assert_eq!(Months { value: 1 }.to_string(), "1 month");
    assert_eq!(Years { value: 1 }.to_string(), "1 year");

    // Plural
    assert_eq!(Seconds { value: 2 }.to_string(), "2 seconds");
    assert_eq!(Seconds { value: 0 }.to_string(), "0 seconds");
    assert_eq!(Years { value: 10 }.to_string(), "10 years");
}

#[test]
fn test_format_if_nonzero() {
    let s_zero = Seconds { value: 0 };
    let s_one = Seconds { value: 1 };

    assert_eq!(s_zero.format_if_nonzero(), None);
    assert_eq!(s_one.format_if_nonzero(), Some("1 second".to_string()));
}

#[test]
fn test_get_data_basic_units() {
    // 1 Minute
    let d = Duration { seconds: 60, nanos: 0 };
    let data = d.get_data();
    assert_eq!(data.minutes.value, 1);
    assert_eq!(data.seconds.value, 0);

    // 1 Hour
    let d = Duration { seconds: 3600, nanos: 0 };
    let data = d.get_data();
    assert_eq!(data.hours.value, 1);
    assert_eq!(data.minutes.value, 0);

    // 1 Day
    let d = Duration { seconds: 86400, nanos: 0 };
    let data = d.get_data();
    assert_eq!(data.days.value, 1);
    assert_eq!(data.hours.value, 0);
}

#[test]
fn test_get_data_greedy_decomposition() {
    // 1 Day, 1 Hour, 1 Minute, 1 Second
    let total_seconds = 86400 + 3600 + 60 + 1;
    let d = Duration { seconds: total_seconds, nanos: 0 };

    let data = d.get_data();
    assert_eq!(data.days.value, 1);
    assert_eq!(data.hours.value, 1);
    assert_eq!(data.minutes.value, 1);
    assert_eq!(data.seconds.value, 1);
}

#[test]
fn test_get_data_negative() {
    // -65 seconds -> 1 minute, 5 seconds (negative flag set)
    let d = Duration { seconds: -65, nanos: 0 };

    let data = d.get_data();
    assert!(data.is_negative);
    assert_eq!(data.minutes.value, 1);
    assert_eq!(data.seconds.value, 5);
}

#[test]
fn test_get_data_smoke_test() {
    let d = dur(31_557_600 + 1, 0); // Approx 1 year + 1 sec
    let data = d.get_data();
    assert_eq!(data.years.value, 1);
}

#[test]
fn test_duration_display_cases() {
    // Case 0: Zero
    let d = Duration { seconds: 0, nanos: 0 };
    assert_eq!(d.to_human_readable_string(), "0 seconds");

    // Case 1: Single unit
    let d = Duration { seconds: 10, nanos: 0 };
    assert_eq!(d.to_human_readable_string(), "10 seconds");

    // Case 2: Two units (use "and")
    let d = Duration { seconds: 90, nanos: 0 };
    assert_eq!(d.to_human_readable_string(), "1 minute and 30 seconds");

    // Case 3: Three+ units (spaces and "and" at the end)
    let d = Duration { seconds: 3661, nanos: 0 };
    assert_eq!(d.to_human_readable_string(), "1 hour 1 minute and 1 second");

    // Case 4: Skipping zero units
    let d = Duration { seconds: 3605, nanos: 0 };
    assert_eq!(d.to_human_readable_string(), "1 hour and 5 seconds");
}

#[test]
fn test_duration_display_negative() {
    // - 1 minute and 30 seconds
    let d = Duration { seconds: -90, nanos: 0 };
    assert_eq!(d.to_human_readable_string(), "- 1 minute and 30 seconds");
}

#[test]
fn basic_tests() {
    let positive = Duration { seconds: 1, nanos: 0 };
    assert!(!positive.is_negative());

    let zero = Duration::default();
    assert!(!zero.is_negative());

    let negative = Duration::new(-1, 0);
    assert!(negative.is_negative());
}

#[test]
fn duration_data_units_add_up() {
    let d = dur(2_629_800 * 3 + 86_400 * 29 + 3_600 * 23 + 60 * 59 + 59, 999);
    let data = d.get_data();
    assert_eq!(data.months.value, 3);
    assert_eq!(data.days.value, 29);
    assert_eq!(data.hours.value, 23);
    assert_eq!(data.minutes.value, 59);
    assert_eq!(data.seconds.value, 59);
    assert_eq!(data.weeks.value, (2_629_800 * 3 + 86_400 * 29 + 3_600 * 23 + 60 * 59 + 59) / 604_800);
    assert_eq!(data.years.value, 0);
    assert!(!data.is_negative);
    assert_eq!(
        d.to_human_readable_string(),
        "3 months 29 days 23 hours 59 minutes and 59 seconds"
    );
}

#[test]
fn duration_readable_edge_cases() {
    // Only nanoseconds: every unit is zero.
    assert_eq!(dur(0, -5).to_human_readable_string(), "0 seconds");
    // A single unit of a negative duration carries the sign too.
    assert_eq!(dur(-10, 0).to_human_readable_string(), "- 10 seconds");
    // The most negative duration does not overflow.
    let data = dur(i64::MIN, 0).get_data();
    assert!(data.is_negative);
    assert_eq!(data.months.value, 9_223_372_036_854_775_808u64 / 2_629_800);
    // Fields that are not in normal form are normalized first.
    assert_eq!(dur(59, 1_000_000_000).to_human_readable_string(), "1 minute");
}

#[test]
fn duration_canonical_edge_cases() {
    assert_eq!(dur(0, 0).to_string(), "0s");
    assert_eq!(dur(0, 1).to_string(), "0.000000001s");
    assert_eq!(dur(0, 120_000_000).to_string(), "0.12s");
    assert_eq!(dur(1, -500_000_000).to_string(), "0.5s");
    assert_eq!(dur(i64::MIN, 0).to_string(), "-9223372036854775808s");
    assert_eq!(dur(i64::MAX, 999_999_999).to_string(), "9223372036854775807.999999999s");
}
