use proto_types::{Date, DateError, DateKind};

fn date(y: i32, m: i32, d: i32) -> Result<Date, DateError> {
    Date::new(y, m, d)
}

#[test]
fn test_date_kinds_creation() {
    let full = date(2024, 1, 15).unwrap();
    assert_eq!(full.kind(), DateKind::Full);
    assert_eq!(full.to_string(), "2024-01-15");
    assert!(full.is_valid());

    let year = date(2024, 0, 0).unwrap();
    assert_eq!(year.kind(), DateKind::YearOnly);
    assert_eq!(year.to_string(), "2024");
    assert!(year.is_year_only());

    let ym = date(2025, 12, 0).unwrap();
    assert_eq!(ym.kind(), DateKind::YearAndMonth);
    assert_eq!(ym.to_string(), "2025-12");
    assert!(ym.is_year_and_month());

    let md = date(0, 5, 20).unwrap();
    assert_eq!(md.kind(), DateKind::MonthAndDay);
    assert_eq!(md.to_string(), "05-20");
    assert!(md.is_month_and_day());
}

#[test]
fn test_validation_failures() {
    assert!(matches!(date(-1, 1, 1), Err(DateError::InvalidYear(_))));
    assert!(matches!(date(10000, 1, 1), Err(DateError::InvalidYear(_))));
    assert!(matches!(date(2024, 13, 1), Err(DateError::InvalidMonth(_))));
    assert!(matches!(date(2024, 1, 32), Err(DateError::InvalidDay(_))));

    assert!(matches!(date(0, 0, 5), Err(DateError::InvalidMonth(_))));

    assert!(matches!(date(0, 5, 0), Err(DateError::InvalidDay(_))));

    assert!(matches!(date(2024, 0, 5), Err(DateError::InvalidMonth(_))));
}

#[test]
fn date_test_ordering() {
    let d1 = date(2024, 5, 10).unwrap();
    let d2 = date(2024, 5, 11).unwrap();
    let d3 = date(2025, 1, 1).unwrap();

    assert!(d1 < d2);
    assert!(d2 < d3);
    assert!(d1 < d3);

    let y1 = date(2023, 0, 0).unwrap();
    let y2 = date(2024, 0, 0).unwrap();
    assert!(y1 < y2);

    let full = date(2024, 1, 1).unwrap();
    let year_only = date(2024, 0, 0).unwrap();
    assert_eq!(full.partial_cmp(&year_only), None);

    let md1 = date(0, 2, 1).unwrap();
    let md2 = date(0, 2, 2).unwrap();
    assert!(md1 < md2);
}

#[test]
fn test_calendar_validation() {
    assert!(Date::new(2023, 1, 31).is_ok());
    assert!(Date::new(2023, 4, 30).is_ok());
    assert!(Date::new(2023, 4, 31).is_err()); // April has 30 days

    assert!(Date::new(2023, 2, 28).is_ok());
    assert!(Date::new(2023, 2, 29).is_err()); // 2023 is not leap

    assert!(Date::new(2024, 2, 29).is_ok());
    assert!(Date::new(2024, 2, 30).is_err());

    assert!(Date::new(1900, 2, 29).is_err()); // 1900 not leap (div by 100)
    assert!(Date::new(2000, 2, 29).is_ok()); // 2000 is leap (div by 400)
}

#[test]
fn test_special_zero_cases() {
    assert!(Date::new(2024, 0, 0).is_ok());
    assert!(Date::new(2024, 2, 0).is_ok());
    assert!(Date::new(2024, 0, 5).is_err());
    assert!(Date::new(0, 2, 29).is_ok());
    assert!(Date::new(0, 2, 30).is_err());
}

#[test]
fn date_error_messages() {
    assert_eq!(
        date(2023, 2, 29),
        Err(DateError::InvalidDay("Invalid day 29 for month 2 (max is 28 for year 2023)".to_string()))
    );
    assert_eq!(
        date(10000, 1, 1),
        Err(DateError::InvalidYear("Invalid year value (must be within 0 and 9999)".to_string()))
    );
    assert_eq!(
        date(1, -1, 1),
        Err(DateError::InvalidMonth("Invalid month value (must be within 0 and 12)".to_string()))
    );
    assert_eq!(
        date(1, 1, -1),
        Err(DateError::InvalidDay("Invalid day value (must be within 0 and 31)".to_string()))
    );
    assert_eq!(
        date(0, 0, 0),
        Err(DateError::InvalidMonth("The month cannot be set to 0 if the year is also set to 0".to_string()))
    );
    assert_eq!(
        date(0, 5, 0),
        Err(DateError::InvalidDay("The day cannot be set to 0 if the year is also set to 0".to_string()))
    );
    assert_eq!(
        date(2024, 0, 5),
        Err(DateError::InvalidMonth("The month cannot be 0 if the day is set".to_string()))
    );
}

#[test]
fn date_order_needs_valid_dates_of_one_kind() {
    let invalid = Date { year: 2024, month: 2, day: 31 };
    let valid = date(2024, 2, 1).unwrap();
    assert!(!invalid.is_valid());
    assert_eq!(invalid.partial_cmp(&valid), None);
    assert_eq!(valid.partial_cmp(&invalid), None);
    assert_eq!(valid.partial_cmp(&valid), Some(core::cmp::Ordering::Equal));
    assert_eq!(date(2024, 3, 0).unwrap().partial_cmp(&date(2024, 2, 0).unwrap()), Some(core::cmp::Ordering::Greater));
    assert_eq!(date(2024, 3, 0).unwrap().partial_cmp(&date(0, 3, 1).unwrap()), None);
    assert!(valid.has_year());
    assert!(!date(0, 3, 1).unwrap().has_year());
    assert_eq!(Date { year: -5, month: 1, day: 1 }.to_string(), "-005-01-01");
}
