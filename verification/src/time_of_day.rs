//! A time of day, without a date or a zone.

use core::cmp::Ordering;
use vstd::prelude::*;
use vstd::std_specs::cmp::PartialOrdSpecImpl;

use crate::arith::fits_i64;
use crate::order::int_order;
use crate::text::{push_signed_zero_padded, signed_zero_padded};

verus! {

/// A time of day: hours from 0 to 23, minutes and seconds from 0 to 59 and
/// nanoseconds below one second.
#[derive(Clone, Copy, Debug, PartialEq, Eq, Structural, Hash)]
pub struct TimeOfDay {
    pub hours: i32,
    pub minutes: i32,
    pub seconds: i32,
    pub nanos: i32,
}

/// Why a [`TimeOfDay`] was refused.
#[derive(Clone, Copy, Debug, PartialEq, Eq, Structural)]
#[non_exhaustive]
pub enum TimeOfDayError {
    /// Hours outside 0 to 23.
    InvalidHours,
    /// Minutes outside 0 to 59.
    InvalidMinutes,
    /// Seconds outside 0 to 59.
    InvalidSeconds,
    /// Nanoseconds outside 0 to 999,999,999.
    InvalidNanos,
    /// The fields cannot be converted to another representation.
    ConversionError,
}

/// Nanoseconds in one minute.
pub const NANOS_PER_MINUTE: i64 = 60_000_000_000;

/// Nanoseconds in one hour.
pub const NANOS_PER_HOUR: i64 = 3_600_000_000_000;

/// The first of the four fields that is out of range, if any.
pub open spec fn spec_validate_time_of_day(hours: int, minutes: int, seconds: int, nanos: int)
    -> Result<(), TimeOfDayError> {
    if !(0 <= hours <= 23) {
        Err(TimeOfDayError::InvalidHours)
    } else if !(0 <= minutes <= 59) {
        Err(TimeOfDayError::InvalidMinutes)
    } else if !(0 <= seconds <= 59) {
        Err(TimeOfDayError::InvalidSeconds)
    } else if !(0 <= nanos <= 999_999_999) {
        Err(TimeOfDayError::InvalidNanos)
    } else {
        Ok(())
    }
}

/// Whether the four fields make a valid time of day.
pub open spec fn is_valid_time_of_day(hours: int, minutes: int, seconds: int, nanos: int) -> bool {
    &&& 0 <= hours <= 23
    &&& 0 <= minutes <= 59
    &&& 0 <= seconds <= 59
    &&& 0 <= nanos <= 999_999_999
}

/// Checks the four fields and names the first that is out of range.
pub fn validate_time_of_day(hours: i32, minutes: i32, seconds: i32, nanos: i32) -> (r: Result<
    (),
    TimeOfDayError,
>)
    ensures
        r == spec_validate_time_of_day(hours as int, minutes as int, seconds as int, nanos as int),
        r is Ok <==> is_valid_time_of_day(
            hours as int,
            minutes as int,
            seconds as int,
            nanos as int,
        ),
{
    if hours < 0 || hours > 23 {
        return Err(TimeOfDayError::InvalidHours);
    }
    if minutes < 0 || minutes > 59 {
        return Err(TimeOfDayError::InvalidMinutes);
    }
    if seconds < 0 || seconds > 59 {
        return Err(TimeOfDayError::InvalidSeconds);
    }
    if nanos < 0 || nanos > 999_999_999 {
        return Err(TimeOfDayError::InvalidNanos);
    }
    Ok(())
}

impl TimeOfDay {
    /// Midnight.
    #[must_use]
    pub fn midnight() -> (r: Self)
        ensures
            r == (TimeOfDay { hours: 0, minutes: 0, seconds: 0, nanos: 0 }),
    {
        Self { hours: 0, minutes: 0, seconds: 0, nanos: 0 }
    }

    /// One o'clock in the morning.
    #[must_use]
    pub fn one_am() -> (r: Self)
        ensures
            r == (TimeOfDay { hours: 1, minutes: 0, seconds: 0, nanos: 0 }),
    {
        Self { hours: 1, minutes: 0, seconds: 0, nanos: 0 }
    }

    /// Two o'clock in the morning.
    #[must_use]
    pub fn two_am() -> (r: Self)
        ensures
            r == (TimeOfDay { hours: 2, minutes: 0, seconds: 0, nanos: 0 }),
    {
        Self { hours: 2, minutes: 0, seconds: 0, nanos: 0 }
    }

    /// Three o'clock in the morning.
    #[must_use]
    pub fn three_am() -> (r: Self)
        ensures
            r == (TimeOfDay { hours: 3, minutes: 0, seconds: 0, nanos: 0 }),
    {
        Self { hours: 3, minutes: 0, seconds: 0, nanos: 0 }
    }

    /// Four o'clock in the morning.
    #[must_use]
    pub fn four_am() -> (r: Self)
        ensures
            r == (TimeOfDay { hours: 4, minutes: 0, seconds: 0, nanos: 0 }),
    {
        Self { hours: 4, minutes: 0, seconds: 0, nanos: 0 }
    }

    /// Five o'clock in the morning.
    #[must_use]
    pub fn five_am() -> (r: Self)
        ensures
            r == (TimeOfDay { hours: 5, minutes: 0, seconds: 0, nanos: 0 }),
    {
        Self { hours: 5, minutes: 0, seconds: 0, nanos: 0 }
    }

    /// Six o'clock in the morning.
    #[must_use]
    pub fn six_am() -> (r: Self)
        ensures
            r == (TimeOfDay { hours: 6, minutes: 0, seconds: 0, nanos: 0 }),
    {
        Self { hours: 6, minutes: 0, seconds: 0, nanos: 0 }
    }

    /// Seven o'clock in the morning.
    #[must_use]
    pub fn seven_am() -> (r: Self)
        ensures
            r == (TimeOfDay { hours: 7, minutes: 0, seconds: 0, nanos: 0 }),
    {
        Self { hours: 7, minutes: 0, seconds: 0, nanos: 0 }
    }

    /// Eight o'clock in the morning.
    #[must_use]
    pub fn eight_am() -> (r: Self)
        ensures
            r == (TimeOfDay { hours: 8, minutes: 0, seconds: 0, nanos: 0 }),
    {
        Self { hours: 8, minutes: 0, seconds: 0, nanos: 0 }
    }

    /// Nine o'clock in the morning.
    #[must_use]
    pub fn nine_am() -> (r: Self)
        ensures
            r == (TimeOfDay { hours: 9, minutes: 0, seconds: 0, nanos: 0 }),
    {
        Self { hours: 9, minutes: 0, seconds: 0, nanos: 0 }
    }

    /// Ten o'clock in the morning.
    #[must_use]
    pub fn ten_am() -> (r: Self)
        ensures
            r == (TimeOfDay { hours: 10, minutes: 0, seconds: 0, nanos: 0 }),
    {
        Self { hours: 10, minutes: 0, seconds: 0, nanos: 0 }
    }

    /// Eleven o'clock in the morning.
    #[must_use]
    pub fn eleven_am() -> (r: Self)
        ensures
            r == (TimeOfDay { hours: 11, minutes: 0, seconds: 0, nanos: 0 }),
    {
        Self { hours: 11, minutes: 0, seconds: 0, nanos: 0 }
    }

    /// Noon.
    #[must_use]
    pub fn noon() -> (r: Self)
        ensures
            r == (TimeOfDay { hours: 12, minutes: 0, seconds: 0, nanos: 0 }),
    {
        Self { hours: 12, minutes: 0, seconds: 0, nanos: 0 }
    }

    /// One o'clock in the afternoon.
    #[must_use]
    pub fn one_pm() -> (r: Self)
        ensures
            r == (TimeOfDay { hours: 13, minutes: 0, seconds: 0, nanos: 0 }),
    {
        Self { hours: 13, minutes: 0, seconds: 0, nanos: 0 }
    }

    /// Two o'clock in the afternoon.
    #[must_use]
    pub fn two_pm() -> (r: Self)
        ensures
            r == (TimeOfDay { hours: 14, minutes: 0, seconds: 0, nanos: 0 }),
    {
        Self { hours: 14, minutes: 0, seconds: 0, nanos: 0 }
    }

    /// Three o'clock in the afternoon.
    #[must_use]
    pub fn three_pm() -> (r: Self)
        ensures
            r == (TimeOfDay { hours: 15, minutes: 0, seconds: 0, nanos: 0 }),
    {
        Self { hours: 15, minutes: 0, seconds: 0, nanos: 0 }
    }

    /// Four o'clock in the afternoon.
    #[must_use]
    pub fn four_pm() -> (r: Self)
        ensures
            r == (TimeOfDay { hours: 16, minutes: 0, seconds: 0, nanos: 0 }),
    {
        Self { hours: 16, minutes: 0, seconds: 0, nanos: 0 }
    }

    /// Five o'clock in the afternoon.
    #[must_use]
    pub fn five_pm() -> (r: Self)
        ensures
            r == (TimeOfDay { hours: 17, minutes: 0, seconds: 0, nanos: 0 }),
    {
        Self { hours: 17, minutes: 0, seconds: 0, nanos: 0 }
    }

    /// Six o'clock in the evening.
    #[must_use]
    pub fn six_pm() -> (r: Self)
        ensures
            r == (TimeOfDay { hours: 18, minutes: 0, seconds: 0, nanos: 0 }),
    {
        Self { hours: 18, minutes: 0, seconds: 0, nanos: 0 }
    }

    /// Seven o'clock in the evening.
    #[must_use]
    pub fn seven_pm() -> (r: Self)
        ensures
            r == (TimeOfDay { hours: 19, minutes: 0, seconds: 0, nanos: 0 }),
    {
        Self { hours: 19, minutes: 0, seconds: 0, nanos: 0 }
    }

    /// Eight o'clock in the evening.
    #[must_use]
    pub fn eight_pm() -> (r: Self)
        ensures
            r == (TimeOfDay { hours: 20, minutes: 0, seconds: 0, nanos: 0 }),
    {
        Self { hours: 20, minutes: 0, seconds: 0, nanos: 0 }
    }

    /// Nine o'clock in the evening.
    #[must_use]
    pub fn nine_pm() -> (r: Self)
        ensures
            r == (TimeOfDay { hours: 21, minutes: 0, seconds: 0, nanos: 0 }),
    {
        Self { hours: 21, minutes: 0, seconds: 0, nanos: 0 }
    }

    /// Ten o'clock in the evening.
    #[must_use]
    pub fn ten_pm() -> (r: Self)
        ensures
            r == (TimeOfDay { hours: 22, minutes: 0, seconds: 0, nanos: 0 }),
    {
        Self { hours: 22, minutes: 0, seconds: 0, nanos: 0 }
    }

    /// Eleven o'clock in the evening.
    #[must_use]
    pub fn eleven_pm() -> (r: Self)
        ensures
            r == (TimeOfDay { hours: 23, minutes: 0, seconds: 0, nanos: 0 }),
    {
        Self { hours: 23, minutes: 0, seconds: 0, nanos: 0 }
    }

    /// Whether the four fields are in range.
    pub open spec fn spec_is_valid(self) -> bool {
        is_valid_time_of_day(
            self.hours as int,
            self.minutes as int,
            self.seconds as int,
            self.nanos as int,
        )
    }

    /// Nanoseconds since midnight, as a mathematical integer.
    pub open spec fn spec_nanos_since_midnight(self) -> int {
        self.hours * 3_600_000_000_000 + self.minutes * 60_000_000_000 + self.seconds
            * 1_000_000_000 + self.nanos
    }

    /// The time as text: `hh:mm:ss`, followed by a point and nine digits
    /// of nanoseconds when there are any.
    pub open spec fn text(self) -> Seq<char> {
        let clock = signed_zero_padded(self.hours as int, 2) + seq![':'] + signed_zero_padded(
            self.minutes as int,
            2,
        ) + seq![':'] + signed_zero_padded(self.seconds as int, 2);
        if self.nanos > 0 {
            clock + seq!['.'] + signed_zero_padded(self.nanos as int, 9)
        } else {
            clock
        }
    }

    /// Nanoseconds since midnight in 128 bits, for any four fields.
    pub fn wide_nanos_since_midnight(&self) -> (r: i128)
        ensures
            r == self.spec_nanos_since_midnight(),
    {
        (self.hours as i128) * 3_600_000_000_000i128 + (self.minutes as i128) * 60_000_000_000i128
            + (self.seconds as i128) * 1_000_000_000i128 + (self.nanos as i128)
    }

    /// Nanoseconds since midnight. The count must fit in 64 bits, as it
    /// does for every valid time of day.
    #[must_use]
    pub fn nanos_since_midnight(&self) -> (r: i64)
        requires
            fits_i64(self.spec_nanos_since_midnight()),
        ensures
            r == self.spec_nanos_since_midnight(),
    {
        self.wide_nanos_since_midnight() as i64
    }

    /// A time of day from its fields, if they are in range.
    pub fn new(hours: i32, minutes: i32, seconds: i32, nanos: i32) -> (r: Result<
        Self,
        TimeOfDayError,
    >)
        ensures
            r == (match spec_validate_time_of_day(
                hours as int,
                minutes as int,
                seconds as int,
                nanos as int,
            ) {
                Ok(_) => Ok(TimeOfDay { hours, minutes, seconds, nanos }),
                Err(e) => Err(e),
            }),
    {
        match validate_time_of_day(hours, minutes, seconds, nanos) {
            Ok(_) => Ok(Self { hours, minutes, seconds, nanos }),
            Err(e) => Err(e),
        }
    }

    /// Whether the four fields are in range.
    #[must_use]
    pub fn is_valid(&self) -> (r: bool)
        ensures
            r == self.spec_is_valid(),
    {
        validate_time_of_day(self.hours, self.minutes, self.seconds, self.nanos).is_ok()
    }

    /// The time as text.
    #[must_use]
    pub fn to_string(&self) -> (r: String)
        ensures
            r@ == self.text(),
    {
        let mut out = String::new();
        push_signed_zero_padded(&mut out, self.hours as i128, 2);
        out.push(':');
        push_signed_zero_padded(&mut out, self.minutes as i128, 2);
        out.push(':');
        push_signed_zero_padded(&mut out, self.seconds as i128, 2);
        if self.nanos > 0 {
            out.push('.');
            push_signed_zero_padded(&mut out, self.nanos as i128, 9);
        }
        assert(out@ =~= self.text());
        out
    }
}

impl PartialOrd for TimeOfDay {
    /// Times of day are ordered by their nanoseconds since midnight.
    fn partial_cmp(&self, other: &Self) -> (r: Option<Ordering>) {
        let a = self.wide_nanos_since_midnight();
        let b = other.wide_nanos_since_midnight();
        Some(crate::order::order_wide(a, b))
    }
}

impl PartialOrdSpecImpl for TimeOfDay {
    open spec fn obeys_partial_cmp_spec() -> bool {
        true
    }

    open spec fn partial_cmp_spec(&self, other: &Self) -> Option<Ordering> {
        Some(int_order(self.spec_nanos_since_midnight(), other.spec_nanos_since_midnight()))
    }
}

/// A valid time of day lies within one day, so its count of nanoseconds
/// fits in 64 bits.
pub proof fn lemma_valid_time_is_within_a_day(t: TimeOfDay)
    requires
        t.spec_is_valid(),
    ensures
        0 <= t.spec_nanos_since_midnight() < 86_400_000_000_000,
        fits_i64(t.spec_nanos_since_midnight()),
{
}

} // verus!
