//! A civil date and time of day, with an optional offset from UTC or a
//! named time zone.

use core::cmp::Ordering;
use vstd::prelude::*;
use vstd::std_specs::cmp::PartialOrdSpecImpl;
use vstd::string::StringExecFns;

use crate::arith::{abs_int, magnitude};
use crate::date::{days_in_month, spec_days_in_month};
use crate::duration::Duration;
use crate::order::{i32_order, int_order, order_i32, order_then, order_wide};
use crate::text::{push_signed_zero_padded, push_zero_padded, signed_zero_padded, zero_padded};

verus! {

/// A time zone from the IANA time zone database.
#[derive(Clone, Debug, PartialEq, Eq, Hash)]
pub struct TimeZone {
    /// The name in the database, such as "America/New_York".
    pub id: String,
    /// The version of the database, such as "2019a"; may be empty.
    pub version: String,
}

/// How a [`DateTime`] relates to UTC.
#[derive(Clone, Debug, PartialEq, Eq)]
pub enum TimeOffset {
    /// A fixed offset from UTC.
    UtcOffset(Duration),
    /// A named time zone.
    TimeZone(TimeZone),
}

/// A civil date and time. A zero year means "no particular year". Without
/// a `time_offset` the value is a local time.
#[derive(Clone, Debug, PartialEq, Eq)]
pub struct DateTime {
    pub year: i32,
    pub month: i32,
    pub day: i32,
    pub hours: i32,
    pub minutes: i32,
    pub seconds: i32,
    pub nanos: i32,
    pub time_offset: Option<TimeOffset>,
}

/// Why a [`DateTime`] was refused or could not be converted.
#[derive(Clone, Debug, PartialEq, Eq)]
#[non_exhaustive]
pub enum DateTimeError {
    /// The year is outside 0 to 9999.
    InvalidYear,
    /// The date does not exist.
    InvalidDate,
    /// The month is outside 1 to 12.
    InvalidMonth,
    /// The day is outside the month.
    InvalidDay,
    /// The hours are outside 0 to 23.
    InvalidHours,
    /// The minutes are outside 0 to 59.
    InvalidMinutes,
    /// The seconds are outside 0 to 59.
    InvalidSeconds,
    /// The nanoseconds are outside 0 to 999,999,999.
    InvalidNanos,
    /// The time of day does not exist.
    InvalidTime,
    /// The result is outside the representable range.
    OutOfRange,
    /// The value cannot be converted; the message says why.
    ConversionError(String),
}

/// The first rule that the seven fields break, if any.
pub open spec fn spec_datetime_is_valid(
    year: int,
    month: int,
    day: int,
    hours: int,
    minutes: int,
    seconds: int,
    nanos: int,
) -> Result<(), DateTimeError> {
    if !(0 <= year <= 9999) {
        Err(DateTimeError::InvalidYear)
    } else if !(1 <= month <= 12) {
        Err(DateTimeError::InvalidMonth)
    } else if !(1 <= day <= spec_days_in_month(month, year)) {
        Err(DateTimeError::InvalidDay)
    } else if !(0 <= hours <= 23) {
        Err(DateTimeError::InvalidHours)
    } else if !(0 <= minutes <= 59) {
        Err(DateTimeError::InvalidMinutes)
    } else if !(0 <= seconds <= 59) {
        Err(DateTimeError::InvalidSeconds)
    } else if !(0 <= nanos <= 999_999_999) {
        Err(DateTimeError::InvalidNanos)
    } else {
        Ok(())
    }
}

/// Checks the seven fields of a date and time and names the first rule
/// they break.
pub fn datetime_is_valid(
    year: i32,
    month: i32,
    day: i32,
    hours: i32,
    minutes: i32,
    seconds: i32,
    nanos: i32,
) -> (r: Result<(), DateTimeError>)
    ensures
        r == spec_datetime_is_valid(
            year as int,
            month as int,
            day as int,
            hours as int,
            minutes as int,
            seconds as int,
            nanos as int,
        ),
{
    if year < 0 || year > 9999 {
        return Err(DateTimeError::InvalidYear);
    }
    if month < 1 || month > 12 {
        return Err(DateTimeError::InvalidMonth);
    }
    let max_days = days_in_month(month, year);
    if day < 1 || day > max_days {
        return Err(DateTimeError::InvalidDay);
    }
    if hours < 0 || hours > 23 {
        return Err(DateTimeError::InvalidHours);
    }
    if minutes < 0 || minutes > 59 {
        return Err(DateTimeError::InvalidMinutes);
    }
    if seconds < 0 || seconds > 59 {
        return Err(DateTimeError::InvalidSeconds);
    }
    if nanos < 0 || nanos > 999_999_999 {
        return Err(DateTimeError::InvalidNanos);
    }
    Ok(())
}

/// The offset of UTC itself: zero.
pub fn utc_offset() -> (r: Duration)
    ensures
        r == (Duration { seconds: 0, nanos: 0 }),
{
    Duration { seconds: 0, nanos: 0 }
}

/// The text of an offset from UTC: `Z` for zero, else a sign and `hh:mm`
/// of the whole seconds of the offset in normal form.
pub open spec fn utc_offset_text(offset: Duration) -> Seq<char> {
    let seconds = offset.spec_normalized().seconds as int;
    let clock = zero_padded((abs_int(seconds) / 3600) as nat, 2) + seq![':'] + zero_padded(
        ((abs_int(seconds) % 3600) / 60) as nat,
        2,
    );
    if seconds < 0 {
        seq!['-'] + clock
    } else if seconds == 0 && offset.nanos == 0 {
        seq!['Z']
    } else {
        seq!['+'] + clock
    }
}

/// The text that follows the time of day: nothing for a local time, the
/// offset, or the name of the zone in square brackets.
pub open spec fn time_offset_text(offset: Option<TimeOffset>) -> Seq<char> {
    match offset {
        Some(TimeOffset::UtcOffset(d)) => utc_offset_text(d),
        Some(TimeOffset::TimeZone(zone)) => seq!['['] + zone.id@ + seq![']'],
        None => Seq::<char>::empty(),
    }
}

impl TimeZone {
    /// The zone as text: its name.
    #[must_use]
    pub fn to_string(&self) -> (r: String)
        ensures
            r@ == self.id@,
    {
        self.id.clone()
    }
}

impl DateTime {
    /// The outcome of checking the seven fields.
    pub open spec fn spec_validate(self) -> Result<(), DateTimeError> {
        spec_datetime_is_valid(
            self.year as int,
            self.month as int,
            self.day as int,
            self.hours as int,
            self.minutes as int,
            self.seconds as int,
            self.nanos as int,
        )
    }

    /// Whether the seven fields make a valid date and time.
    pub open spec fn spec_is_valid(self) -> bool {
        self.spec_validate() is Ok
    }

    /// The date and time as text: `YYYY-MM-DDThh:mm:ss`, without the
    /// year and its dash when the year is zero, followed by the offset or
    /// the zone.
    pub open spec fn text(self) -> Seq<char> {
        let year = if self.year != 0 {
            signed_zero_padded(self.year as int, 4) + seq!['-']
        } else {
            Seq::<char>::empty()
        };
        year + signed_zero_padded(self.month as int, 2) + seq!['-'] + signed_zero_padded(
            self.day as int,
            2,
        ) + seq!['T'] + signed_zero_padded(self.hours as int, 2) + seq![':'] + signed_zero_padded(
            self.minutes as int,
            2,
        ) + seq![':'] + signed_zero_padded(self.seconds as int, 2) + time_offset_text(
            self.time_offset,
        )
    }

    /// Checks the fields and names the first rule they break.
    pub fn validate(&self) -> (r: Result<(), DateTimeError>)
        ensures
            r == self.spec_validate(),
    {
        datetime_is_valid(
            self.year,
            self.month,
            self.day,
            self.hours,
            self.minutes,
            self.seconds,
            self.nanos,
        )
    }

    /// Whether the fields make a valid date and time.
    #[must_use]
    pub fn is_valid(&self) -> (r: bool)
        ensures
            r == self.spec_is_valid(),
    {
        self.validate().is_ok()
    }

    /// Whether the year is set.
    #[must_use]
    pub fn has_year(&self) -> (r: bool)
        ensures
            r == (self.year != 0),
    {
        self.year != 0
    }

    /// Whether the value carries a fixed offset from UTC.
    #[must_use]
    pub fn has_utc_offset(&self) -> (r: bool)
        ensures
            r == (self.time_offset matches Some(TimeOffset::UtcOffset(_))),
    {
        match &self.time_offset {
            Some(TimeOffset::UtcOffset(_)) => true,
            _ => false,
        }
    }

    /// Whether the value carries a named time zone.
    #[must_use]
    pub fn has_timezone(&self) -> (r: bool)
        ensures
            r == (self.time_offset matches Some(TimeOffset::TimeZone(_))),
    {
        match &self.time_offset {
            Some(TimeOffset::TimeZone(_)) => true,
            _ => false,
        }
    }

    /// Whether the value is a local time, with neither offset nor zone.
    #[must_use]
    pub fn is_local(&self) -> (r: bool)
        ensures
            r == (self.time_offset is None),
    {
        self.time_offset.is_none()
    }

    /// The same date and time at a fixed offset from UTC, in place of any
    /// offset or zone it had.
    #[must_use]
    pub fn with_utc_offset(self, offset: Duration) -> (r: Self)
        ensures
            r == (DateTime { time_offset: Some(TimeOffset::UtcOffset(offset)), ..self }),
    {
        let mut result = self;
        result.time_offset = Some(TimeOffset::UtcOffset(offset));
        result
    }

    /// The same date and time in a named zone, in place of any offset or
    /// zone it had.
    #[must_use]
    pub fn with_time_zone(self, time_zone: TimeZone) -> (r: Self)
        ensures
            r == (DateTime { time_offset: Some(TimeOffset::TimeZone(time_zone)), ..self }),
    {
        let mut result = self;
        result.time_offset = Some(TimeOffset::TimeZone(time_zone));
        result
    }

    /// The date and time as text.
    #[must_use]
    pub fn to_string(&self) -> (r: String)
        ensures
            r@ == self.text(),
    {
        let mut out = String::new();
        if self.year != 0 {
            push_signed_zero_padded(&mut out, self.year as i128, 4);
            out.push('-');
        }
        push_two_digits(&mut out, self.month, '-');
        push_two_digits(&mut out, self.day, 'T');
        push_two_digits(&mut out, self.hours, ':');
        push_two_digits(&mut out, self.minutes, ':');
        push_signed_zero_padded(&mut out, self.seconds as i128, 2);
        push_time_offset(&mut out, &self.time_offset);
        assert(out@ =~= self.text());
        out
    }
}

/// Appends a field padded to two digits and the mark that follows it.
fn push_two_digits(out: &mut String, value: i32, mark: char)
    ensures
        final(out)@ == old(out)@ + signed_zero_padded(value as int, 2) + seq![mark],
{
    push_signed_zero_padded(out, value as i128, 2);
    out.push(mark);
    assert(final(out)@ =~= old(out)@ + signed_zero_padded(value as int, 2) + seq![mark]);
}

/// Appends the text of an offset from UTC.
fn push_utc_offset(out: &mut String, offset: &Duration)
    ensures
        final(out)@ == old(out)@ + utc_offset_text(*offset),
{
    let seconds = offset.normalized().seconds;
    let size = magnitude(seconds);
    let hours = size / 3600;
    let minutes = (size % 3600) / 60;
    if seconds == 0 && offset.nanos == 0 {
        out.push('Z');
        assert(final(out)@ =~= old(out)@ + utc_offset_text(*offset));
    } else {
        if seconds < 0 {
            out.push('-');
        } else {
            out.push('+');
        }
        push_zero_padded(out, hours as u128, 2);
        out.push(':');
        push_zero_padded(out, minutes as u128, 2);
        assert(final(out)@ =~= old(out)@ + utc_offset_text(*offset));
    }
}

/// Appends what follows the time of day: the offset, or the zone.
fn push_time_offset(out: &mut String, offset: &Option<TimeOffset>)
    ensures
        final(out)@ == old(out)@ + time_offset_text(*offset),
{
    match offset {
        Some(TimeOffset::UtcOffset(d)) => {
            push_utc_offset(out, d);
        },
        Some(TimeOffset::TimeZone(zone)) => {
            out.push('[');
            out.append(zone.id.as_str());
            out.push(']');
            assert(final(out)@ =~= old(out)@ + (seq!['['] + zone.id@ + seq![']']));
        },
        None => {
            assert(final(out)@ =~= old(out)@ + Seq::<char>::empty());
        },
    }
}

/// How two offsets stand to each other: two fixed offsets are ordered as
/// durations; a named zone is ordered against nothing.
pub open spec fn offset_order(a: TimeOffset, b: TimeOffset) -> Option<Ordering> {
    match (a, b) {
        (TimeOffset::UtcOffset(x), TimeOffset::UtcOffset(y)) => Some(
            int_order(x.spec_total_nanos(), y.spec_total_nanos()),
        ),
        _ => None,
    }
}

/// How two optional offsets stand to each other: a local time comes before
/// any time with an offset or a zone.
pub open spec fn optional_offset_order(a: Option<TimeOffset>, b: Option<TimeOffset>) -> Option<
    Ordering,
> {
    match (a, b) {
        (None, None) => Some(Ordering::Equal),
        (None, Some(_)) => Some(Ordering::Less),
        (Some(_), None) => Some(Ordering::Greater),
        (Some(x), Some(y)) => offset_order(x, y),
    }
}

/// The order of the seven fields, from the year down to the nanoseconds.
pub open spec fn civil_order(a: DateTime, b: DateTime) -> Ordering {
    order_then(
        i32_order(a.year, b.year),
        order_then(
            i32_order(a.month, b.month),
            order_then(
                i32_order(a.day, b.day),
                order_then(
                    i32_order(a.hours, b.hours),
                    order_then(
                        i32_order(a.minutes, b.minutes),
                        order_then(i32_order(a.seconds, b.seconds), i32_order(a.nanos, b.nanos)),
                    ),
                ),
            ),
        ),
    )
}

/// The order of the seven fields of two values.
pub fn compare_civil_fields(a: &DateTime, b: &DateTime) -> (r: Ordering)
    ensures
        r == civil_order(*a, *b),
{
    match order_i32(a.year, b.year) {
        Ordering::Equal => match order_i32(a.month, b.month) {
            Ordering::Equal => match order_i32(a.day, b.day) {
                Ordering::Equal => match order_i32(a.hours, b.hours) {
                    Ordering::Equal => match order_i32(a.minutes, b.minutes) {
                        Ordering::Equal => match order_i32(a.seconds, b.seconds) {
                            Ordering::Equal => order_i32(a.nanos, b.nanos),
                            other => other,
                        },
                        other => other,
                    },
                    other => other,
                },
                other => other,
            },
            other => other,
        },
        other => other,
    }
}

/// How two optional offsets stand to each other.
pub fn compare_offsets(a: &Option<TimeOffset>, b: &Option<TimeOffset>) -> (r: Option<Ordering>)
    ensures
        r == optional_offset_order(*a, *b),
{
    match (a, b) {
        (None, None) => Some(Ordering::Equal),
        (None, Some(_)) => Some(Ordering::Less),
        (Some(_), None) => Some(Ordering::Greater),
        (Some(x), Some(y)) => x.partial_cmp(y),
    }
}

impl PartialOrd for TimeOffset {
    fn partial_cmp(&self, other: &Self) -> (r: Option<Ordering>) {
        match (self, other) {
            (TimeOffset::UtcOffset(a), TimeOffset::UtcOffset(b)) => Some(
                order_wide(a.total_nanos(), b.total_nanos()),
            ),
            _ => None,
        }
    }
}

impl PartialOrdSpecImpl for TimeOffset {
    open spec fn obeys_partial_cmp_spec() -> bool {
        true
    }

    open spec fn partial_cmp_spec(&self, other: &Self) -> Option<Ordering> {
        offset_order(*self, *other)
    }
}

impl PartialOrd for DateTime {
    /// Two valid values that both have a year, or both have none, are
    /// ordered by their fields and then by their offsets; the offsets can
    /// leave them without an order. Any other two values are not comparable.
    fn partial_cmp(&self, other: &Self) -> (r: Option<Ordering>) {
        if !(self.is_valid() && other.is_valid()) {
            return None;
        }
        if (self.year == 0 && other.year != 0) || (self.year != 0 && other.year == 0) {
            return None;
        }
        match compare_civil_fields(self, other) {
            Ordering::Equal => compare_offsets(&self.time_offset, &other.time_offset),
            decided => Some(decided),
        }
    }
}

impl PartialOrdSpecImpl for DateTime {
    open spec fn obeys_partial_cmp_spec() -> bool {
        true
    }

    open spec fn partial_cmp_spec(&self, other: &Self) -> Option<Ordering> {
        if !(self.spec_is_valid() && other.spec_is_valid()) {
            None
        } else if (self.year == 0) != (other.year == 0) {
            None
        } else {
            match civil_order(*self, *other) {
                Ordering::Equal => optional_offset_order(self.time_offset, other.time_offset),
                decided => Some(decided),
            }
        }
    }
}

} // verus!
