use proto_types::{Timestamp, TimestampError};
use std::str::FromStr;
use std::time::{Duration as StdDuration, SystemTime, UNIX_EPOCH};

fn ts(s: i64, n: i32) -> Timestamp {
    Timestamp { seconds: s, nanos: n }
}

fn from_system_time(time: SystemTime) -> Timestamp {
    match time.duration_since(UNIX_EPOCH) {
        Ok(after) => Timestamp::since_epoch(after.as_secs(), after.subsec_nanos()),
        Err(before) => {
            Timestamp::before_epoch(before.duration().as_secs(), before.duration().subsec_nanos())
        }
    }
}

fn to_system_time(t: Timestamp) -> Option<SystemTime> {
    let (before, seconds, nanos) = t.epoch_distance();
    let distance = StdDuration::new(seconds, nanos);
    if before {
        UNIX_EPOCH.checked_sub(distance)
    } else {
        UNIX_EPOCH.checked_add(distance)
    }
}

#[test]
fn test_system_time_epoch() {
    // 1. Exact Epoch
    let t: Timestamp = from_system_time(UNIX_EPOCH);
    assert_eq!(t, ts(0, 0));

    // 2. Roundtrip Epoch
    let sys: SystemTime = to_system_time(ts(0, 0)).unwrap();
    assert_eq!(sys, UNIX_EPOCH);
}

#[test]
fn test_system_time_roundtrip() {
    let now = SystemTime::now();

    let t: Timestamp = from_system_time(now);

    let back: SystemTime = to_system_time(t).expect("Timestamp should fit in SystemTime");

    let diff = now.duration_since(back).unwrap_or_else(|e| e.duration());
    assert!(diff.as_nanos() < 1, "Roundtrip drifted significantly");
}

#[test]
fn test_system_time_pre_epoch() {
    // 1969-12-31 23:59:59
    let pre_epoch = UNIX_EPOCH - core::time::Duration::from_secs(1);

    let t: Timestamp = from_system_time(pre_epoch);
    assert_eq!(t.seconds, -1);

    let back: SystemTime = to_system_time(t).unwrap();
    assert_eq!(back, pre_epoch);
}

#[test]
fn test_display_rfc3339() {
    // 1. Epoch
    assert_eq!(ts(0, 0).to_string(), "1970-01-01T00:00:00Z");

    // 2. Nanos (Standard trimming logic expected)
    assert_eq!(ts(0, 500_000_000).to_string(), "1970-01-01T00:00:00.5Z");

    // 3. Pre-Epoch
    assert_eq!(ts(-1, 0).to_string(), "1969-12-31T23:59:59Z");
}

#[test]
fn test_from_str_rfc3339() {
    // 1. Basic
    let t = Timestamp::from_str("1970-01-01T00:00:00Z").unwrap();
    assert_eq!(t, ts(0, 0));

    // 2. With Nanos
    let t = Timestamp::from_str("1970-01-01T00:00:00.123456789Z").unwrap();
    assert_eq!(t, ts(0, 123_456_789));
}

#[test]
fn test_string_roundtrip() {
    let t = ts(1_600_000_000, 123_000_000);
    let s = t.to_string();
    let back: Timestamp = s.parse().unwrap();
    assert_eq!(t, back);
}

#[test]
fn timestamp_text_known_instants() {
    assert_eq!(ts(1_704_110_400, 0).to_string(), "2024-01-01T12:00:00Z");
    assert_eq!(ts(951_782_400, 1).to_string(), "2000-02-29T00:00:00.000000001Z");
    assert_eq!(ts(-62_135_596_800, 0).to_string(), "0001-01-01T00:00:00Z");
    assert_eq!(ts(-62_135_596_801, 0).to_string(), "0000-12-31T23:59:59Z");
    assert_eq!(ts(-62_167_219_201, 0).to_string(), "-0001-12-31T23:59:59Z");
    assert_eq!(ts(253_402_300_799, 999_999_999).to_string(), "9999-12-31T23:59:59.999999999Z");
    assert_eq!(ts(253_402_300_800, 0).to_string(), "+10000-01-01T00:00:00Z");
    assert_eq!(ts(i64::MAX, 0).to_string(), "+292277026596-12-04T15:30:07Z");
    assert_eq!(ts(i64::MIN, 0).to_string(), "-292277022657-01-27T08:29:52Z");
    // Fields out of normal form are normalized first.
    assert_eq!(ts(0, -1).to_string(), "1969-12-31T23:59:59.999999999Z");
    let c = ts(1_704_110_400, 0).to_civil();
    assert_eq!((c.year, c.month, c.day, c.hour, c.minute, c.second), (2024, 1, 1, 12, 0, 0));
}

#[test]
fn timestamp_text_round_trips() {
    for seconds in [
        0,
        1,
        -1,
        86_399,
        86_400,
        -86_400,
        -86_401,
        951_782_399,
        951_868_800,
        1_709_251_199,
        4_102_444_800,
        -2_208_988_800,
        -62_135_596_800,
        -62_167_219_200,
        253_402_300_800,
        i64::MAX,
        i64::MIN,
    ] {
        for nanos in [0, 1, 10, 500_000_000, 999_999_999, 120_000] {
            let t = ts(seconds, nanos);
            assert_eq!(Timestamp::from_str(&t.to_string()), Ok(t), "{}", t.to_string());
        }
    }
}

#[test]
fn timestamp_parse_errors() {
    for text in [
        "",
        "1970-01-01",
        "1970-01-01T00:00:00",
        "1970-01-01T00:00:00z",
        "1970-01-01 00:00:00Z",
        "1970-01-01T00:00:00.Z",
        "1970-01-01T00:00:00.1234567890Z",
        "970-01-01T00:00:00Z",
        "1970-1-01T00:00:00Z",
        "1970-01-01T00:00:00Z ",
        "1970-01-01T00:00:000Z",
        "1970-01-01T00:00:00+00:00",
        "1970\u{2013}01-01T00:00:00Z",
        "1234567890123-01-01T00:00:00Z",
        "19700-01-01T00:00:00.123456789ZZZZZZZZZZZZZZZZZZZZZZZ",
    ] {
        assert_eq!(Timestamp::from_str(text), Err(TimestampError::ParseFailure), "{text}");
    }
    for text in [
        "1970-00-01T00:00:00Z",
        "1970-13-01T00:00:00Z",
        "1970-01-00T00:00:00Z",
        "1970-02-29T00:00:00Z",
        "1900-02-29T00:00:00Z",
        "1970-04-31T00:00:00Z",
        "1970-01-01T24:00:00Z",
        "1970-01-01T00:60:00Z",
        "1970-01-01T00:00:60Z",
        "+292277026596-12-04T15:30:08Z",
        "-292277022657-01-27T08:29:51Z",
        "999999999999-01-01T00:00:00Z",
    ] {
        assert_eq!(Timestamp::from_str(text), Err(TimestampError::InvalidDateTime), "{text}");
    }
    assert_eq!(Timestamp::from_str("2000-02-29T00:00:00.5Z"), Ok(ts(951_782_400, 500_000_000)));
    assert_eq!(Timestamp::from_str("+2000-02-29T00:00:00.05Z"), Ok(ts(951_782_400, 50_000_000)));
    assert_eq!(Timestamp::from_str("0000-02-29T00:00:00Z"), Ok(ts(-62_162_121_600, 0)));
    assert_eq!("1970-01-01T00:00:01Z".parse::<Timestamp>(), Ok(ts(1, 0)));
}

#[test]
fn timestamp_epoch_distance() {
    assert_eq!(ts(5, 7).epoch_distance(), (false, 5, 7));
    assert_eq!(ts(-5, 7).epoch_distance(), (true, 4, 999_999_993));
    assert_eq!(ts(-1, 0).epoch_distance(), (true, 1, 0));
    assert_eq!(ts(i64::MIN, 0).epoch_distance(), (true, 9_223_372_036_854_775_808, 0));
    assert_eq!(Timestamp::since_epoch(u64::MAX, 0), ts(i64::MAX, 999_999_999));
    assert_eq!(Timestamp::before_epoch(u64::MAX, 0), ts(i64::MIN, 0));
    assert_eq!(Timestamp::before_epoch(1, 250_000_000), ts(-2, 750_000_000));
}
