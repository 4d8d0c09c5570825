//! Conversions between this library's calendar types and those of the
//! `chrono` crate.
//!
//! The values of `chrono` are opaque here: they are made and read only
//! through the items of this module that state, without proof, what the
//! functions of `chrono` do.

use vstd::prelude::*;
use vstd::string::StringExecFns;

use crate::arith::{split_total, whole_of};
use crate::date::{
    spec_days_in_month, spec_validate_date, validate_date, Date, DateError, DateErrorModel,
};
use crate::datetime::{DateTime, DateTimeError, TimeOffset};
use crate::text::{owned, push_signed_decimal};
use crate::time_of_day::{TimeOfDay, TimeOfDayError};

verus! {

/// A date of `chrono`, without a time zone.
#[verifier::external_type_specification]
#[verifier::external_body]
pub struct ExNaiveDate(chrono::NaiveDate);

/// A time of day of `chrono`, without a time zone.
#[verifier::external_type_specification]
#[verifier::external_body]
pub struct ExNaiveTime(chrono::NaiveTime);

/// A date and time of `chrono`, without a time zone.
#[verifier::external_type_specification]
#[verifier::external_body]
pub struct ExNaiveDateTime(chrono::NaiveDateTime);

/// Whether `chrono` has a date for the three numbers: the day exists in
/// the proleptic Gregorian calendar and the year is one that `chrono` can
/// hold.
pub open spec fn chrono_has_date(year: int, month: int, day: int) -> bool {
    &&& -262_143 <= year <= 262_142
    &&& 1 <= month <= 12
    &&& 1 <= day <= spec_days_in_month(month, year)
}

/// Whether `chrono` has a time of day for the four numbers. A count of
/// nanoseconds of one second or more stands for a leap second and is taken
/// only in the last second of a minute.
pub open spec fn chrono_has_time(hour: int, minute: int, second: int, nano: int) -> bool {
    &&& 0 <= hour < 24
    &&& 0 <= minute < 60
    &&& 0 <= second < 60
    &&& 0 <= nano < 2_000_000_000
    &&& (nano >= 1_000_000_000 ==> second == 59)
}

/// `chrono::NaiveDate::from_ymd_opt` gives a date exactly when the day
/// exists in the calendar and the year is in the range of `chrono`.
pub assume_specification[ chrono::NaiveDate::from_ymd_opt ](year: i32, month: u32, day: u32) -> (r:
    Option<chrono::NaiveDate>)
    ensures
        r is Some <==> chrono_has_date(year as int, month as int, day as int),
;

/// `chrono::NaiveTime::from_hms_nano_opt` gives a time of day exactly when
/// hour, minute and second are in range and the nanoseconds are below one
/// second, or below two in the last second of a minute.
pub assume_specification[ chrono::NaiveTime::from_hms_nano_opt ](
    hour: u32,
    min: u32,
    sec: u32,
    nano: u32,
) -> (r: Option<chrono::NaiveTime>)
    ensures
        r is Some <==> chrono_has_time(hour as int, min as int, sec as int, nano as int),
;

/// `chrono::NaiveDateTime::new` puts a date and a time of day together;
/// nothing is stated of the result.
pub assume_specification[ chrono::NaiveDateTime::new ](
    date: chrono::NaiveDate,
    time: chrono::NaiveTime,
) -> (r: chrono::NaiveDateTime)
;

/// `chrono::NaiveDateTime::date` gives the date of a date and time;
/// nothing is stated of the result.
pub assume_specification[ chrono::NaiveDateTime::date ](value: &chrono::NaiveDateTime) -> (r:
    chrono::NaiveDate)
;

/// `chrono::NaiveDateTime::time` gives the time of day of a date and time;
/// nothing is stated of the result.
pub assume_specification[ chrono::NaiveDateTime::time ](value: &chrono::NaiveDateTime) -> (r:
    chrono::NaiveTime)
;

/// `chrono::Datelike::year` of a date; nothing is stated of the result.
#[verifier::external_body]
fn naive_date_year(date: &chrono::NaiveDate) -> (r: i32) {
    chrono::Datelike::year(date)
}

/// `chrono::Datelike::month` of a date: from 1 to 12.
#[verifier::external_body]
fn naive_date_month(date: &chrono::NaiveDate) -> (r: u32)
    ensures
        1 <= r <= 12,
{
    chrono::Datelike::month(date)
}

/// `chrono::Datelike::day` of a date: from 1 to 31.
#[verifier::external_body]
fn naive_date_day(date: &chrono::NaiveDate) -> (r: u32)
    ensures
        1 <= r <= 31,
{
    chrono::Datelike::day(date)
}

/// `chrono::Timelike::hour` of a time of day: from 0 to 23.
#[verifier::external_body]
fn naive_time_hour(time: &chrono::NaiveTime) -> (r: u32)
    ensures
        r <= 23,
{
    chrono::Timelike::hour(time)
}

/// `chrono::Timelike::minute` of a time of day: from 0 to 59.
#[verifier::external_body]
fn naive_time_minute(time: &chrono::NaiveTime) -> (r: u32)
    ensures
        r <= 59,
{
    chrono::Timelike::minute(time)
}

/// `chrono::Timelike::second` of a time of day: from 0 to 59.
#[verifier::external_body]
fn naive_time_second(time: &chrono::NaiveTime) -> (r: u32)
    ensures
        r <= 59,
{
    chrono::Timelike::second(time)
}

/// `chrono::Timelike::nanosecond` of a time of day: below two seconds,
/// where one second and more stands for a leap second.
#[verifier::external_body]
fn naive_time_nanosecond(time: &chrono::NaiveTime) -> (r: u32)
    ensures
        r < 2_000_000_000,
{
    chrono::Timelike::nanosecond(time)
}

/// The message for a date with a field that is not set.
pub open spec fn partial_date_message() -> Seq<char> {
    "Cannot convert Date with year=0, month=0, or day=0 to NaiveDate"@
}

/// The message for a date and time without a year.
pub open spec fn no_year_message() -> Seq<char> {
    "Cannot convert DateTime with year 0 to NaiveDateTime"@
}

impl Date {
    /// Whether the date is a whole date that can be handed to `chrono`.
    pub open spec fn is_whole_and_valid(self) -> bool {
        self.year != 0 && self.month != 0 && self.day != 0 && self.spec_is_valid()
    }

    /// What stands in the way of handing the date to `chrono`, if anything:
    /// a field that is not set, or the first rule that the fields break.
    pub open spec fn spec_naive_date_error(self) -> Option<DateErrorModel> {
        if self.year == 0 || self.month == 0 || self.day == 0 {
            Some(DateErrorModel::ConversionError(partial_date_message()))
        } else {
            match spec_validate_date(self.year as int, self.month as int, self.day as int) {
                Ok(_) => None,
                Err(e) => Some(e),
            }
        }
    }

    /// The date as a date of `chrono`. A date with a field that is not set
    /// gives a `ConversionError`; an invalid date gives the error of its
    /// validation; every other date is converted.
    pub fn to_naive_date(self) -> (r: Result<chrono::NaiveDate, DateError>)
        ensures
            r is Ok <==> self.is_whole_and_valid(),
            match r {
                Ok(_) => self.spec_naive_date_error() is None,
                Err(e) => self.spec_naive_date_error() == Some(e@),
            },
    {
        if self.year == 0 || self.month == 0 || self.day == 0 {
            return Err(
                DateError::ConversionError(
                    owned("Cannot convert Date with year=0, month=0, or day=0 to NaiveDate"),
                ),
            );
        }
        match validate_date(self.year, self.month, self.day) {
            Ok(_) => {},
            Err(e) => {
                return Err(e);
            },
        }
        match chrono::NaiveDate::from_ymd_opt(self.year, self.month as u32, self.day as u32) {
            Some(date) => Ok(date),
            None => {
                let mut message = owned("Invalid date components for NaiveDate: Y:");
                push_signed_decimal(&mut message, self.year as i128);
                message.append(", M:");
                push_signed_decimal(&mut message, self.month as i128);
                message.append(", D:");
                push_signed_decimal(&mut message, self.day as i128);
                Err(DateError::ConversionError(message))
            },
        }
    }

    /// The date that a date of `chrono` stands for. The month and the day
    /// are those of a calendar day; the year is the year of `chrono`, which
    /// may lie outside the years that a valid [`Date`] can have.
    pub fn from_naive_date(date: &chrono::NaiveDate) -> (r: Self)
        ensures
            1 <= r.month <= 12,
            1 <= r.day <= 31,
    {
        Self {
            year: naive_date_year(date),
            month: naive_date_month(date) as i32,
            day: naive_date_day(date) as i32,
        }
    }
}

impl TimeOfDay {
    /// What stands in the way of handing the time to `chrono`, if
    /// anything: the first negative field, or fields that `chrono` does not
    /// take.
    pub open spec fn spec_naive_time_error(self) -> Option<TimeOfDayError> {
        if self.hours < 0 {
            Some(TimeOfDayError::InvalidHours)
        } else if self.minutes < 0 {
            Some(TimeOfDayError::InvalidMinutes)
        } else if self.seconds < 0 {
            Some(TimeOfDayError::InvalidSeconds)
        } else if self.nanos < 0 {
            Some(TimeOfDayError::InvalidNanos)
        } else if !chrono_has_time(
            self.hours as int,
            self.minutes as int,
            self.seconds as int,
            self.nanos as int,
        ) {
            Some(TimeOfDayError::ConversionError)
        } else {
            None
        }
    }

    /// The time as a time of day of `chrono`.
    pub fn to_naive_time(self) -> (r: Result<chrono::NaiveTime, TimeOfDayError>)
        ensures
            match r {
                Ok(_) => self.spec_naive_time_error() is None,
                Err(e) => self.spec_naive_time_error() == Some(e),
            },
            self.spec_is_valid() ==> r is Ok,
    {
        if self.hours < 0 {
            return Err(TimeOfDayError::InvalidHours);
        }
        if self.minutes < 0 {
            return Err(TimeOfDayError::InvalidMinutes);
        }
        if self.seconds < 0 {
            return Err(TimeOfDayError::InvalidSeconds);
        }
        if self.nanos < 0 {
            return Err(TimeOfDayError::InvalidNanos);
        }
        match chrono::NaiveTime::from_hms_nano_opt(
            self.hours as u32,
            self.minutes as u32,
            self.seconds as u32,
            self.nanos as u32,
        ) {
            Some(time) => Ok(time),
            None => Err(TimeOfDayError::ConversionError),
        }
    }

    /// The time that a time of day of `chrono` stands for. In a leap
    /// second of `chrono` the nanoseconds are one second or more, and the
    /// result is not a valid [`TimeOfDay`].
    pub fn from_naive_time(time: &chrono::NaiveTime) -> (r: Self)
        ensures
            0 <= r.hours <= 23,
            0 <= r.minutes <= 59,
            0 <= r.seconds <= 59,
            0 <= r.nanos < 2_000_000_000,
    {
        Self {
            hours: naive_time_hour(time) as i32,
            minutes: naive_time_minute(time) as i32,
            seconds: naive_time_second(time) as i32,
            nanos: naive_time_nanosecond(time) as i32,
        }
    }
}

impl DateTime {
    /// The date and time as a date and time of `chrono`, without offset or
    /// zone. A value without a year gives a `ConversionError`; an invalid
    /// value gives the error of its validation; every other value is
    /// converted.
    pub fn to_naive_datetime(&self) -> (r: Result<chrono::NaiveDateTime, DateTimeError>)
        ensures
            r is Ok <==> self.year != 0 && self.spec_is_valid(),
            match r {
                Ok(_) => true,
                Err(DateTimeError::ConversionError(message)) => self.year == 0 && message@
                    == no_year_message(),
                Err(e) => self.year != 0 && self.spec_validate() == Err::<(), DateTimeError>(e),
            },
    {
        if self.year == 0 {
            return Err(
                DateTimeError::ConversionError(
                    owned("Cannot convert DateTime with year 0 to NaiveDateTime"),
                ),
            );
        }
        match self.validate() {
            Ok(_) => {},
            Err(e) => {
                return Err(e);
            },
        }
        let date = match chrono::NaiveDate::from_ymd_opt(
            self.year,
            self.month as u32,
            self.day as u32,
        ) {
            Some(date) => date,
            None => {
                return Err(DateTimeError::InvalidDate);
            },
        };
        let time = match chrono::NaiveTime::from_hms_nano_opt(
            self.hours as u32,
            self.minutes as u32,
            self.seconds as u32,
            self.nanos as u32,
        ) {
            Some(time) => time,
            None => {
                return Err(DateTimeError::InvalidTime);
            },
        };
        Ok(chrono::NaiveDateTime::new(date, time))
    }

    /// The local date and time that a date and time of `chrono` stands
    /// for, without offset or zone.
    pub fn from_naive_datetime(value: &chrono::NaiveDateTime) -> (r: Self)
        ensures
            r.time_offset is None,
            1 <= r.month <= 12,
            1 <= r.day <= 31,
            0 <= r.hours <= 23,
            0 <= r.minutes <= 59,
            0 <= r.seconds <= 59,
            0 <= r.nanos < 2_000_000_000,
    {
        let date = value.date();
        let time = value.time();
        Self {
            year: naive_date_year(&date),
            month: naive_date_month(&date) as i32,
            day: naive_date_day(&date) as i32,
            hours: naive_time_hour(&time) as i32,
            minutes: naive_time_minute(&time) as i32,
            seconds: naive_time_second(&time) as i32,
            nanos: naive_time_nanosecond(&time) as i32,
            time_offset: None,
        }
    }
}

/// A fixed offset from UTC of `chrono`.
#[verifier::external_type_specification]
#[verifier::external_body]
pub struct ExFixedOffset(chrono::FixedOffset);

/// `chrono::FixedOffset::east_opt` gives an offset exactly for seconds
/// within one day of UTC, both ends excluded.
pub assume_specification[ chrono::FixedOffset::east_opt ](secs: i32) -> (r: Option<
    chrono::FixedOffset,
>)
    ensures
        r is Some <==> -86_400 < secs < 86_400,
;

/// The message for a value that is not at UTC.
pub open spec fn not_utc_message() -> Seq<char> {
    "Cannot convert DateTime to TimeZone<Utc> when the UtcOffset is not 0."@
}

/// The message for a value without an offset from UTC.
pub open spec fn no_utc_offset_message() -> Seq<char> {
    "Cannot convert DateTime to TimeZone<Utc> when a UtcOffset is not set."@
}

/// The message for a local value where an offset is needed.
pub open spec fn local_message() -> Seq<char> {
    "Cannot convert local DateTime (no offset) to FixedOffset. If you intended UTC, use .with_utc_offset() first."@
}

/// The message for an offset whose seconds do not fit in 32 bits.
pub open spec fn offset_too_wide_message() -> Seq<char> {
    "UtcOffset total seconds is outside of i32 range for FixedOffset"@
}

/// The message for an offset of a day or more.
pub open spec fn offset_out_of_range_message() -> Seq<char> {
    "Failed to convert proto::Duration to chrono::FixedOffset due to invalid offset values"@
}

/// The message for a value at an offset where a named zone is needed.
pub open spec fn offset_is_no_zone_message() -> Seq<char> {
    "Cannot convert non-zero UtcOffset to a named TimeZone (Tz)"@
}

/// The message for a local value where a named zone is needed.
pub open spec fn local_has_no_zone_message() -> Seq<char> {
    "Cannot convert local DateTime to named TimeZone (Tz) without explicit offset or name"@
}

impl DateTime {
    /// The name of the zone of the value in the time zone database: the
    /// name of its zone, or `UTC` for a value at UTC. A value at another
    /// offset, and a local value, give a `ConversionError`.
    pub fn zone_id(&self) -> (r: Result<String, DateTimeError>)
        ensures
            match self.time_offset {
                Some(TimeOffset::TimeZone(zone)) => r matches Ok(id) && id@ == zone.id@,
                Some(TimeOffset::UtcOffset(_)) => if self.spec_is_at_utc() {
                    r matches Ok(id) && id@ == "UTC"@
                } else {
                    r matches Err(DateTimeError::ConversionError(message)) && message@
                        == offset_is_no_zone_message()
                },
                None => r matches Err(DateTimeError::ConversionError(message)) && message@
                    == local_has_no_zone_message(),
            },
    {
        match &self.time_offset {
            Some(TimeOffset::UtcOffset(offset)) => {
                if offset.seconds == 0 && offset.nanos == 0 {
                    Ok(owned("UTC"))
                } else {
                    Err(
                        DateTimeError::ConversionError(
                            owned("Cannot convert non-zero UtcOffset to a named TimeZone (Tz)"),
                        ),
                    )
                }
            },
            Some(TimeOffset::TimeZone(zone)) => Ok(zone.id.clone()),
            None => Err(
                DateTimeError::ConversionError(
                    owned(
                        "Cannot convert local DateTime to named TimeZone (Tz) without explicit offset or name",
                    ),
                ),
            ),
        }
    }

    /// The whole seconds of the offset from UTC, where the value has one.
    pub open spec fn spec_offset_seconds(self) -> Option<int> {
        match self.time_offset {
            Some(TimeOffset::UtcOffset(d)) => Some(whole_of(d.spec_total_nanos())),
            _ => None,
        }
    }

    /// Whether the value is at UTC: it has an offset, and the offset is
    /// zero seconds and zero nanoseconds.
    pub open spec fn spec_is_at_utc(self) -> bool {
        self.time_offset matches Some(TimeOffset::UtcOffset(d)) && d.seconds == 0 && d.nanos == 0
    }

    /// The date and time of a value at UTC as a date and time of `chrono`,
    /// to which the caller attaches UTC. A value that is not at UTC gives a
    /// `ConversionError`; else the outcome is that of
    /// [`DateTime::to_naive_datetime`].
    pub fn to_naive_utc(&self) -> (r: Result<chrono::NaiveDateTime, DateTimeError>)
        ensures
            r is Ok <==> self.spec_is_at_utc() && self.year != 0 && self.spec_is_valid(),
            !self.spec_is_at_utc() ==> (r matches Err(DateTimeError::ConversionError(message))
                && message@ == (if self.time_offset matches Some(TimeOffset::UtcOffset(_)) {
                not_utc_message()
            } else {
                no_utc_offset_message()
            })),
            self.spec_is_at_utc() && self.year == 0 ==> (r matches Err(
                DateTimeError::ConversionError(message),
            ) && message@ == no_year_message()),
            self.spec_is_at_utc() && self.year != 0 && !self.spec_is_valid() ==> r is Err
                && self.spec_validate() == Err::<(), DateTimeError>(r->Err_0),
    {
        match &self.time_offset {
            Some(TimeOffset::UtcOffset(offset)) => {
                if offset.seconds != 0 || offset.nanos != 0 {
                    return Err(
                        DateTimeError::ConversionError(
                            owned(
                                "Cannot convert DateTime to TimeZone<Utc> when the UtcOffset is not 0.",
                            ),
                        ),
                    );
                }
            },
            _ => {
                return Err(
                    DateTimeError::ConversionError(
                        owned(
                            "Cannot convert DateTime to TimeZone<Utc> when a UtcOffset is not set.",
                        ),
                    ),
                );
            },
        }
        self.to_naive_datetime()
    }

    /// The offset from UTC as an offset of `chrono`. `Ok(None)` stands for
    /// a named zone, which the caller looks up by its name. A local value,
    /// and an offset of a day or more, give a `ConversionError`.
    pub fn to_fixed_offset(&self) -> (r: Result<Option<chrono::FixedOffset>, DateTimeError>)
        ensures
            match self.time_offset {
                Some(TimeOffset::UtcOffset(d)) => if -86_400 < whole_of(d.spec_total_nanos())
                    < 86_400 {
                    r matches Ok(Some(_))
                } else if i32::MIN <= whole_of(d.spec_total_nanos()) <= i32::MAX {
                    r matches Err(DateTimeError::ConversionError(message)) && message@
                        == offset_out_of_range_message()
                } else {
                    r matches Err(DateTimeError::ConversionError(message)) && message@
                        == offset_too_wide_message()
                },
                Some(TimeOffset::TimeZone(_)) => r matches Ok(None),
                None => r matches Err(DateTimeError::ConversionError(message)) && message@
                    == local_message(),
            },
    {
        match &self.time_offset {
            Some(TimeOffset::UtcOffset(offset)) => {
                let (whole, _) = split_total(offset.total_nanos());
                if whole < -2_147_483_648 || whole > 2_147_483_647 {
                    return Err(
                        DateTimeError::ConversionError(
                            owned("UtcOffset total seconds is outside of i32 range for FixedOffset"),
                        ),
                    );
                }
                match chrono::FixedOffset::east_opt(whole as i32) {
                    Some(fixed) => Ok(Some(fixed)),
                    None => Err(
                        DateTimeError::ConversionError(
                            owned(
                                "Failed to convert proto::Duration to chrono::FixedOffset due to invalid offset values",
                            ),
                        ),
                    ),
                }
            },
            Some(TimeOffset::TimeZone(_)) => Ok(None),
            None => Err(
                DateTimeError::ConversionError(
                    owned(
                        "Cannot convert local DateTime (no offset) to FixedOffset. If you intended UTC, use .with_utc_offset() first.",
                    ),
                ),
            ),
        }
    }
}

} // verus!
