//! A calendar date whose zero fields stand for "not set".

use core::cmp::Ordering;
use vstd::prelude::*;
use vstd::std_specs::cmp::PartialOrdSpec;
use vstd::std_specs::cmp::PartialOrdSpecImpl;
use vstd::string::StringExecFns;

use crate::order::{i32_order, order_i32, order_then};
use crate::text::{owned, push_signed_decimal, push_signed_zero_padded, signed_decimal, signed_zero_padded};

verus! {

/// A whole or partial calendar date. A zero year, month or day means that
/// the field is not set; [`DateKind`] names the combinations that make sense.
#[derive(Clone, Copy, Debug, PartialEq, Eq, Structural, Hash)]
pub struct Date {
    pub year: i32,
    pub month: i32,
    pub day: i32,
}

/// Why a [`Date`] was refused. Each variant carries a message for people.
#[derive(Clone, Debug, PartialEq, Eq)]
#[non_exhaustive]
pub enum DateError {
    InvalidYear(String),
    InvalidMonth(String),
    InvalidDay(String),
    ConversionError(String),
}

/// Mathematical model of a [`DateError`].
pub enum DateErrorModel {
    InvalidYear(Seq<char>),
    InvalidMonth(Seq<char>),
    InvalidDay(Seq<char>),
    ConversionError(Seq<char>),
}

impl View for DateError {
    type V = DateErrorModel;

    open spec fn view(&self) -> DateErrorModel {
        match self {
            DateError::InvalidYear(m) => DateErrorModel::InvalidYear(m@),
            DateError::InvalidMonth(m) => DateErrorModel::InvalidMonth(m@),
            DateError::InvalidDay(m) => DateErrorModel::InvalidDay(m@),
            DateError::ConversionError(m) => DateErrorModel::ConversionError(m@),
        }
    }
}

/// Which of the fields of a [`Date`] are set.
#[derive(Clone, Copy, Debug, PartialEq, Eq, Structural)]
pub enum DateKind {
    /// Year, month and day.
    Full,
    /// A year alone.
    YearOnly,
    /// A year and a month, such as the expiry of a credit card.
    YearAndMonth,
    /// A month and a day, such as an anniversary.
    MonthAndDay,
}

/// The Gregorian leap-year rule.
pub open spec fn spec_is_leap_year(year: int) -> bool {
    year % 4 == 0 && (year % 100 != 0 || year % 400 == 0)
}

/// Days of a month in a year; February of year zero, which stands for any
/// year, has 29. A month outside 1 to 12 has none.
pub open spec fn spec_days_in_month(month: int, year: int) -> int {
    if month == 1 || month == 3 || month == 5 || month == 7 || month == 8 || month == 10 || month
        == 12 {
        31
    } else if month == 4 || month == 6 || month == 9 || month == 11 {
        30
    } else if month == 2 {
        if year == 0 || spec_is_leap_year(year) {
            29
        } else {
            28
        }
    } else {
        0
    }
}

/// Whether the three fields make a valid whole or partial date.
pub open spec fn is_valid_date(year: int, month: int, day: int) -> bool {
    &&& 0 <= year <= 9999
    &&& 0 <= month <= 12
    &&& 0 <= day <= 31
    &&& (year == 0 ==> month != 0 && day != 0)
    &&& (month == 0 ==> day == 0)
    &&& (month != 0 && day != 0 ==> day <= spec_days_in_month(month, year))
}

/// The message for a day beyond the end of its month.
pub open spec fn day_beyond_month_message(year: int, month: int, day: int) -> Seq<char> {
    "Invalid day "@ + signed_decimal(day) + " for month "@ + signed_decimal(month) + " (max is "@
        + signed_decimal(spec_days_in_month(month, year)) + " for year "@ + signed_decimal(year)
        + ")"@
}

/// The first rule that the three fields break, if any.
pub open spec fn spec_validate_date(year: int, month: int, day: int) -> Result<
    (),
    DateErrorModel,
> {
    if !(0 <= year <= 9999) {
        Err(DateErrorModel::InvalidYear("Invalid year value (must be within 0 and 9999)"@))
    } else if !(0 <= month <= 12) {
        Err(DateErrorModel::InvalidMonth("Invalid month value (must be within 0 and 12)"@))
    } else if !(0 <= day <= 31) {
        Err(DateErrorModel::InvalidDay("Invalid day value (must be within 0 and 31)"@))
    } else if year == 0 && month == 0 {
        Err(
            DateErrorModel::InvalidMonth(
                "The month cannot be set to 0 if the year is also set to 0"@,
            ),
        )
    } else if year == 0 && day == 0 {
        Err(DateErrorModel::InvalidDay("The day cannot be set to 0 if the year is also set to 0"@))
    } else if month == 0 && day != 0 {
        Err(DateErrorModel::InvalidMonth("The month cannot be 0 if the day is set"@))
    } else if month != 0 && day > spec_days_in_month(month, year) {
        Err(DateErrorModel::InvalidDay(day_beyond_month_message(year, month, day)))
    } else {
        Ok(())
    }
}

/// The rules accept exactly the valid dates.
pub proof fn lemma_validate_date_accepts_valid(year: int, month: int, day: int)
    ensures
        spec_validate_date(year, month, day) is Ok <==> is_valid_date(year, month, day),
{
}

/// Whether `year` is a leap year.
pub fn is_leap_year(year: i32) -> (r: bool)
    ensures
        r == spec_is_leap_year(year as int),
{
    (year % 4 == 0) && ((year % 100 != 0) || (year % 400 == 0))
}

/// Days of `month` in `year`; see [`spec_days_in_month`].
pub fn days_in_month(month: i32, year: i32) -> (r: i32)
    ensures
        r == spec_days_in_month(month as int, year as int),
{
    match month {
        1 | 3 | 5 | 7 | 8 | 10 | 12 => 31,
        4 | 6 | 9 | 11 => 30,
        2 => {
            if year == 0 || is_leap_year(year) {
                29
            } else {
                28
            }
        },
        _ => 0,
    }
}

/// Checks the three fields of a date and names the first rule they break.
pub fn validate_date(year: i32, month: i32, day: i32) -> (r: Result<(), DateError>)
    ensures
        r is Ok <==> is_valid_date(year as int, month as int, day as int),
        match r {
            Ok(_) => spec_validate_date(year as int, month as int, day as int) is Ok,
            Err(e) => spec_validate_date(year as int, month as int, day as int) == Err::<
                (),
                DateErrorModel,
            >(e@),
        },
{
    if year < 0 || year > 9999 {
        return Err(DateError::InvalidYear(owned("Invalid year value (must be within 0 and 9999)")));
    }
    if month < 0 || month > 12 {
        return Err(DateError::InvalidMonth(owned("Invalid month value (must be within 0 and 12)")));
    }
    if day < 0 || day > 31 {
        return Err(DateError::InvalidDay(owned("Invalid day value (must be within 0 and 31)")));
    }
    if year == 0 {
        if month == 0 {
            return Err(
                DateError::InvalidMonth(
                    owned("The month cannot be set to 0 if the year is also set to 0"),
                ),
            );
        }
        if day == 0 {
            return Err(
                DateError::InvalidDay(
                    owned("The day cannot be set to 0 if the year is also set to 0"),
                ),
            );
        }
    } else if month == 0 {
        if day != 0 {
            return Err(DateError::InvalidMonth(owned("The month cannot be 0 if the day is set")));
        }
        return Ok(());
    }
    if day != 0 {
        let max_days = days_in_month(month, year);
        if day > max_days {
            let mut message = owned("Invalid day ");
            push_signed_decimal(&mut message, day as i128);
            message.append(" for month ");
            push_signed_decimal(&mut message, month as i128);
            message.append(" (max is ");
            push_signed_decimal(&mut message, max_days as i128);
            message.append(" for year ");
            push_signed_decimal(&mut message, year as i128);
            message.append(")");
            return Err(DateError::InvalidDay(message));
        }
    }
    Ok(())
}

impl Date {
    /// Whether the fields make a valid whole or partial date.
    pub open spec fn spec_is_valid(self) -> bool {
        is_valid_date(self.year as int, self.month as int, self.day as int)
    }

    /// Which fields are set. Any combination that is none of the three
    /// partial kinds counts as `Full`.
    pub open spec fn spec_kind(self) -> DateKind {
        if self.year != 0 && self.month == 0 && self.day == 0 {
            DateKind::YearOnly
        } else if self.year != 0 && self.month != 0 && self.day == 0 {
            DateKind::YearAndMonth
        } else if self.year == 0 && self.month != 0 && self.day != 0 {
            DateKind::MonthAndDay
        } else {
            DateKind::Full
        }
    }

    /// The date as text: `YYYY-MM-DD`, `YYYY-MM`, `YYYY` or `MM-DD`,
    /// by kind.
    pub open spec fn text(self) -> Seq<char> {
        match self.spec_kind() {
            DateKind::Full => signed_zero_padded(self.year as int, 4) + seq!['-']
                + signed_zero_padded(self.month as int, 2) + seq!['-'] + signed_zero_padded(
                self.day as int,
                2,
            ),
            DateKind::YearAndMonth => signed_zero_padded(self.year as int, 4) + seq!['-']
                + signed_zero_padded(self.month as int, 2),
            DateKind::YearOnly => signed_zero_padded(self.year as int, 4),
            DateKind::MonthAndDay => signed_zero_padded(self.month as int, 2) + seq!['-']
                + signed_zero_padded(self.day as int, 2),
        }
    }

    /// A date from its fields, if they make a valid whole or partial date.
    pub fn new(year: i32, month: i32, day: i32) -> (r: Result<Self, DateError>)
        ensures
            r is Ok <==> is_valid_date(year as int, month as int, day as int),
            match r {
                Ok(date) => date == (Date { year, month, day }),
                Err(e) => spec_validate_date(year as int, month as int, day as int) == Err::<
                    (),
                    DateErrorModel,
                >(e@),
            },
    {
        match validate_date(year, month, day) {
            Ok(_) => Ok(Self { year, month, day }),
            Err(e) => Err(e),
        }
    }

    /// Which fields are set.
    #[must_use]
    pub fn kind(&self) -> (r: DateKind)
        ensures
            r == self.spec_kind(),
    {
        if self.year != 0 && self.month == 0 && self.day == 0 {
            DateKind::YearOnly
        } else if self.year != 0 && self.month != 0 && self.day == 0 {
            DateKind::YearAndMonth
        } else if self.year == 0 && self.month != 0 && self.day != 0 {
            DateKind::MonthAndDay
        } else {
            DateKind::Full
        }
    }

    /// Whether the fields make a valid whole or partial date.
    #[must_use]
    pub fn is_valid(&self) -> (r: bool)
        ensures
            r == self.spec_is_valid(),
    {
        validate_date(self.year, self.month, self.day).is_ok()
    }

    /// Whether the year is set.
    #[must_use]
    pub fn has_year(&self) -> (r: bool)
        ensures
            r == (self.year != 0),
    {
        self.year != 0
    }

    /// Whether only the year is set.
    #[must_use]
    pub fn is_year_only(&self) -> (r: bool)
        ensures
            r == (self.spec_kind() == DateKind::YearOnly),
    {
        self.year != 0 && (self.month == 0 && self.day == 0)
    }

    /// Whether the year and the month are set, and the day is not.
    #[must_use]
    pub fn is_year_and_month(&self) -> (r: bool)
        ensures
            r == (self.spec_kind() == DateKind::YearAndMonth),
    {
        self.year != 0 && self.month != 0 && self.day == 0
    }

    /// Whether the month and the day are set, and the year is not.
    #[must_use]
    pub fn is_month_and_day(&self) -> (r: bool)
        ensures
            r == (self.spec_kind() == DateKind::MonthAndDay),
    {
        self.year == 0 && self.month != 0 && self.day != 0
    }

    /// The date as text, by kind.
    #[must_use]
    pub fn to_string(&self) -> (r: String)
        ensures
            r@ == self.text(),
    {
        let mut out = String::new();
        match self.kind() {
            DateKind::Full => {
                push_signed_zero_padded(&mut out, self.year as i128, 4);
                out.push('-');
                push_signed_zero_padded(&mut out, self.month as i128, 2);
                out.push('-');
                push_signed_zero_padded(&mut out, self.day as i128, 2);
            },
            DateKind::YearAndMonth => {
                push_signed_zero_padded(&mut out, self.year as i128, 4);
                out.push('-');
                push_signed_zero_padded(&mut out, self.month as i128, 2);
            },
            DateKind::YearOnly => {
                push_signed_zero_padded(&mut out, self.year as i128, 4);
            },
            DateKind::MonthAndDay => {
                push_signed_zero_padded(&mut out, self.month as i128, 2);
                out.push('-');
                push_signed_zero_padded(&mut out, self.day as i128, 2);
            },
        }
        assert(out@ =~= self.text());
        out
    }
}

/// Year, then month, then day.
pub open spec fn date_order(a: Date, b: Date) -> Ordering {
    order_then(
        i32_order(a.year, b.year),
        order_then(i32_order(a.month, b.month), i32_order(a.day, b.day)),
    )
}

impl PartialOrd for Date {
    /// Two valid dates of the same kind are ordered by year, month and
    /// day; any other two dates are not comparable.
    fn partial_cmp(&self, other: &Self) -> (r: Option<Ordering>) {
        if !(self.is_valid() && other.is_valid()) {
            return None;
        }
        if self.kind() != other.kind() {
            return None;
        }
        match order_i32(self.year, other.year) {
            Ordering::Equal => match order_i32(self.month, other.month) {
                Ordering::Equal => Some(order_i32(self.day, other.day)),
                by_month => Some(by_month),
            },
            by_year => Some(by_year),
        }
    }
}

impl PartialOrdSpecImpl for Date {
    open spec fn obeys_partial_cmp_spec() -> bool {
        true
    }

    open spec fn partial_cmp_spec(&self, other: &Self) -> Option<Ordering> {
        if self.spec_is_valid() && other.spec_is_valid() && self.spec_kind() == other.spec_kind() {
            Some(date_order(*self, *other))
        } else {
            None
        }
    }
}

/// Two valid dates of the same kind are ordered by year, then month, then
/// day.
pub proof fn lemma_same_kind_dates_are_ordered(a: Date, b: Date)
    requires
        a.spec_is_valid(),
        b.spec_is_valid(),
        a.spec_kind() == b.spec_kind(),
    ensures
        PartialOrdSpec::partial_cmp_spec(&a, &b) == Some(date_order(a, b)),
        date_order(a, b) is Equal <==> a == b,
{
}

/// Dates of different kinds are not comparable, and neither is a date that
/// is not valid.
pub proof fn lemma_other_dates_are_not_comparable(a: Date, b: Date)
    requires
        !a.spec_is_valid() || !b.spec_is_valid() || a.spec_kind() != b.spec_kind(),
    ensures
        PartialOrdSpec::partial_cmp_spec(&a, &b) is None,
{
}

} // verus!
