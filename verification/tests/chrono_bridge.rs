use chrono::{Datelike, NaiveDate, NaiveTime, Timelike};
use proto_types::{Date, DateError, DateKind, DateTime, DateTimeError, Duration, TimeOfDay, TimeOfDayError, TimeZone, Timestamp};

fn dt(y: i32, m: i32, d: i32, h: i32, min: i32, s: i32, n: i32) -> DateTime {
    DateTime { year: y, month: m, day: d, hours: h, minutes: min, seconds: s, nanos: n, time_offset: None }
}

#[test]
fn test_to_naive_date() {
    let d = Date::new(2024, 2, 29).unwrap(); // Leap year
    let naive = d.to_naive_date().unwrap();
    assert_eq!(naive, NaiveDate::from_ymd_opt(2024, 2, 29).unwrap());
}

#[test]
fn test_from_naive_date() {
    let naive = NaiveDate::from_ymd_opt(2023, 10, 25).unwrap();
    let d: Date = Date::from_naive_date(&naive);
    assert_eq!(d.year, 2023);
    assert_eq!(d.month, 10);
    assert_eq!(d.day, 25);
    assert_eq!(d.kind(), DateKind::Full);
}

#[test]
fn test_to_naive_datetime() {
    let d = dt(2024, 5, 20, 10, 30, 0, 500);
    let naive: chrono::NaiveDateTime = d.to_naive_datetime().unwrap();

    assert_eq!(naive.year(), 2024);
    assert_eq!(naive.hour(), 10);
    assert_eq!(naive.nanosecond(), 500);
}

#[test]
fn test_to_fixed_offset() {
    let mut d = dt(2024, 5, 20, 10, 0, 0, 0);
    // Offset +1 hour
    d = d.with_utc_offset(Duration { seconds: 3600, nanos: 0 });

    let offset = d.to_fixed_offset().unwrap().unwrap();
    let fixed: chrono::DateTime<chrono::FixedOffset> =
        d.to_naive_datetime().unwrap().and_local_timezone(offset).single().unwrap();

    // The time should stay 10:00, but the offset is +1
    assert_eq!(fixed.hour(), 10);
    assert_eq!(fixed.offset().local_minus_utc(), 3600);
}

#[test]
fn test_conversion() {
    let time = TimeOfDay::new(15, 30, 0, 0).unwrap();
    let naive: NaiveTime = time.to_naive_time().unwrap();
    assert_eq!(naive, NaiveTime::from_hms_opt(15, 30, 0).unwrap());

    let back: TimeOfDay = TimeOfDay::from_naive_time(&naive);
    assert_eq!(back, time);
}

#[test]
fn test_chrono_utc_roundtrip() {
    // 2024-01-01 12:00:00 UTC
    let dt = chrono::TimeZone::with_ymd_and_hms(&chrono::Utc, 2024, 1, 1, 12, 0, 0).unwrap();

    // Into Timestamp
    let t = Timestamp::since_epoch(dt.timestamp() as u64, dt.timestamp_subsec_nanos());
    assert_eq!(t.seconds, 1_704_110_400);
    assert_eq!(t.nanos, 0);

    // Back to Chrono
    let normal = t.normalized();
    let back = chrono::DateTime::from_timestamp(normal.seconds, normal.nanos as u32).unwrap();
    assert_eq!(dt, back);

    // The civil fields agree with those of chrono.
    let c = t.to_civil();
    assert_eq!(
        (c.year, u32::from(c.month), u32::from(c.day), u32::from(c.hour)),
        (i64::from(dt.year()), dt.month(), dt.day(), dt.hour())
    );
}

#[test]
fn chrono_dates_agree_with_validation() {
    for year in [1, 4, 100, 400, 1900, 2000, 2023, 2024, 9999] {
        for month in 1..=12 {
            for day in 1..=31 {
                let ours = Date::new(year, month, day);
                let theirs = NaiveDate::from_ymd_opt(year, month as u32, day as u32);
                assert_eq!(ours.is_ok(), theirs.is_some());
                if let Ok(date) = ours {
                    let naive = date.to_naive_date().unwrap();
                    assert_eq!(Some(naive), theirs);
                    assert_eq!(Date::from_naive_date(&naive), date);
                }
            }
        }
    }
}

#[test]
fn chrono_civil_time_agrees() {
    for seconds in [0i64, -1, 86_400, 951_782_400, 1_709_251_199, -2_208_988_800, -62_135_596_800, 253_402_300_799] {
        let theirs = chrono::DateTime::from_timestamp(seconds, 0).unwrap();
        let ours = Timestamp::new(seconds, 0).to_civil();
        assert_eq!(ours.year, i64::from(theirs.year()));
        assert_eq!(u32::from(ours.month), theirs.month());
        assert_eq!(u32::from(ours.day), theirs.day());
        assert_eq!(u32::from(ours.hour), theirs.hour());
        assert_eq!(u32::from(ours.minute), theirs.minute());
        assert_eq!(u32::from(ours.second), theirs.second());
    }
}

#[test]
fn chrono_conversion_errors() {
    assert_eq!(
        Date::new(2024, 2, 0).unwrap().to_naive_date(),
        Err(DateError::ConversionError(
            "Cannot convert Date with year=0, month=0, or day=0 to NaiveDate".to_string()
        ))
    );
    assert!(matches!(Date { year: 2023, month: 2, day: 29 }.to_naive_date(), Err(DateError::InvalidDay(_))));
    assert_eq!(
        TimeOfDay { hours: -1, minutes: 0, seconds: 0, nanos: 0 }.to_naive_time(),
        Err(TimeOfDayError::InvalidHours)
    );
    assert_eq!(
        TimeOfDay { hours: 0, minutes: -1, seconds: 0, nanos: 0 }.to_naive_time(),
        Err(TimeOfDayError::InvalidMinutes)
    );
    assert_eq!(
        TimeOfDay { hours: 0, minutes: 0, seconds: -1, nanos: 0 }.to_naive_time(),
        Err(TimeOfDayError::InvalidSeconds)
    );
    assert_eq!(
        TimeOfDay { hours: 0, minutes: 0, seconds: 0, nanos: -1 }.to_naive_time(),
        Err(TimeOfDayError::InvalidNanos)
    );
    assert_eq!(
        TimeOfDay { hours: 24, minutes: 0, seconds: 0, nanos: 0 }.to_naive_time(),
        Err(TimeOfDayError::ConversionError)
    );
    assert!(TimeOfDay { hours: 23, minutes: 59, seconds: 59, nanos: 1_500_000_000 }.to_naive_time().is_ok());
    assert_eq!(
        dt(0, 5, 20, 10, 0, 0, 0).to_naive_datetime(),
        Err(DateTimeError::ConversionError(
            "Cannot convert DateTime with year 0 to NaiveDateTime".to_string()
        ))
    );
    assert_eq!(dt(2023, 2, 29, 10, 0, 0, 0).to_naive_datetime(), Err(DateTimeError::InvalidDay));
    let naive = dt(2024, 5, 20, 10, 30, 1, 500).to_naive_datetime().unwrap();
    assert_eq!(DateTime::from_naive_datetime(&naive), dt(2024, 5, 20, 10, 30, 1, 500));
}

#[test]
fn chrono_offsets() {
    let local = dt(2024, 5, 20, 10, 0, 0, 0);
    assert!(matches!(local.to_fixed_offset(), Err(DateTimeError::ConversionError(_))));
    assert!(matches!(local.to_naive_utc(), Err(DateTimeError::ConversionError(_))));
    let utc = local.clone().with_utc_offset(Duration { seconds: 0, nanos: 0 });
    assert_eq!(utc.to_naive_utc().unwrap().and_utc().timestamp(), 1_716_199_200);
    let plus = local.clone().with_utc_offset(Duration { seconds: 3600, nanos: 0 });
    assert_eq!(
        plus.to_naive_utc(),
        Err(DateTimeError::ConversionError(
            "Cannot convert DateTime to TimeZone<Utc> when the UtcOffset is not 0.".to_string()
        ))
    );
    let day = local.clone().with_utc_offset(Duration { seconds: 86_400, nanos: 0 });
    assert_eq!(
        day.to_fixed_offset(),
        Err(DateTimeError::ConversionError(
            "Failed to convert proto::Duration to chrono::FixedOffset due to invalid offset values".to_string()
        ))
    );
    let wide = local.clone().with_utc_offset(Duration { seconds: i64::MAX, nanos: 0 });
    assert_eq!(
        wide.to_fixed_offset(),
        Err(DateTimeError::ConversionError(
            "UtcOffset total seconds is outside of i32 range for FixedOffset".to_string()
        ))
    );
    let almost = local.clone().with_utc_offset(Duration { seconds: -86_399, nanos: -999_999_999 });
    assert_eq!(almost.to_fixed_offset().unwrap().unwrap().local_minus_utc(), -86_399);
    let zone = local.with_time_zone(TimeZone { id: "Europe/Paris".into(), version: String::new() });
    assert_eq!(zone.to_fixed_offset(), Ok(None));
}

fn to_tz(value: &DateTime) -> chrono::DateTime<chrono_tz::Tz> {
    let zone = match &value.time_offset {
        Some(proto_types::TimeOffset::TimeZone(zone)) => zone.id.parse::<chrono_tz::Tz>().unwrap(),
        _ => chrono_tz::Tz::UTC,
    };
    chrono::TimeZone::from_local_datetime(&zone, &value.to_naive_datetime().unwrap()).single().unwrap()
}

fn to_fixed(value: &DateTime) -> chrono::DateTime<chrono::FixedOffset> {
    match value.to_fixed_offset().unwrap() {
        Some(offset) => value.to_naive_datetime().unwrap().and_local_timezone(offset).single().unwrap(),
        None => {
            let zoned = to_tz(value);
            zoned.with_timezone(&chrono::Offset::fix(zoned.offset()))
        }
    }
}

#[test]
fn test_to_tz() {
    let mut d = dt(2024, 1, 1, 12, 0, 0, 0);
    d = d.with_time_zone(TimeZone { id: "US/Pacific".into(), version: String::new() });

    let tz_dt: chrono::DateTime<chrono_tz::Tz> = to_tz(&d);
    assert_eq!(tz_dt.timezone(), chrono_tz::US::Pacific);
}

#[test]
fn test_named_tz_to_fixed_offset_dst() {
    // New York Standard Time (Winter) -> UTC-5
    let winter = dt(2024, 1, 1, 12, 0, 0, 0)
        .with_time_zone(TimeZone { id: "America/New_York".into(), version: String::new() });

    let fixed_winter: chrono::DateTime<chrono::FixedOffset> = to_fixed(&winter);
    assert_eq!(fixed_winter.offset().local_minus_utc(), -5 * 3600);

    // New York Daylight Time (Summer) -> UTC-4
    let summer = dt(2024, 6, 1, 12, 0, 0, 0)
        .with_time_zone(TimeZone { id: "America/New_York".into(), version: String::new() });

    let fixed_summer: chrono::DateTime<chrono::FixedOffset> = to_fixed(&summer);
    assert_eq!(fixed_summer.offset().local_minus_utc(), -4 * 3600);
}

fn timestamp_of<Tz: chrono::TimeZone>(value: &chrono::DateTime<Tz>) -> Timestamp {
    Timestamp::new(value.timestamp(), 0).saturating_add_unsigned(0, value.timestamp_subsec_nanos())
}

#[test]
fn test_chrono_naive_utc_assumption() {
    // NaiveDateTime is assumed to be UTC when converting to Timestamp
    let naive = NaiveDate::from_ymd_opt(2024, 1, 1).unwrap().and_hms_opt(12, 0, 0).unwrap();

    let t: Timestamp = timestamp_of(&naive.and_utc());

    // Should match the UTC seconds from above
    assert_eq!(t.seconds, 1_704_110_400);

    // Roundtrip back
    let normal = t.normalized();
    let back_naive =
        chrono::DateTime::from_timestamp(normal.seconds, normal.nanos as u32).unwrap().naive_local();
    assert_eq!(naive, back_naive);
}

#[test]
fn test_fixed_offset_conversions() {
    // 2024-01-01 12:00:00 +05:00 == 07:00:00 UTC
    let dt_offset = chrono::TimeZone::with_ymd_and_hms(
        &chrono::FixedOffset::east_opt(5 * 3600).unwrap(),
        2024,
        1,
        1,
        12,
        0,
        0,
    )
    .unwrap();

    let t: Timestamp = timestamp_of(&dt_offset);

    assert_eq!(t.seconds, 1_704_092_400);
}

#[test]
fn zone_ids() {
    let local = dt(2024, 1, 1, 12, 0, 0, 0);
    assert_eq!(
        local.zone_id(),
        Err(DateTimeError::ConversionError(
            "Cannot convert local DateTime to named TimeZone (Tz) without explicit offset or name".to_string()
        ))
    );
    let utc = local.clone().with_utc_offset(Duration { seconds: 0, nanos: 0 });
    assert_eq!(utc.zone_id(), Ok("UTC".to_string()));
    assert_eq!(utc.zone_id().unwrap().parse::<chrono_tz::Tz>(), Ok(chrono_tz::Tz::UTC));
    let plus = local.clone().with_utc_offset(Duration { seconds: 0, nanos: 1 });
    assert_eq!(
        plus.zone_id(),
        Err(DateTimeError::ConversionError(
            "Cannot convert non-zero UtcOffset to a named TimeZone (Tz)".to_string()
        ))
    );
    let paris = local.with_time_zone(TimeZone { id: "Europe/Paris".into(), version: String::new() });
    assert_eq!(paris.zone_id(), Ok("Europe/Paris".to_string()));
}
