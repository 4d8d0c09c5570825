//! The proleptic Gregorian calendar: counting days, and telling the civil
//! date and time of an instant.

use vstd::prelude::*;

use crate::date::{spec_days_in_month, spec_is_leap_year};

verus! {

/// A date and time of day in UTC, to the second.
#[derive(Clone, Copy, Debug, PartialEq, Eq, Structural)]
pub struct CivilTime {
    pub year: i64,
    pub month: u8,
    pub day: u8,
    pub hour: u8,
    pub minute: u8,
    pub second: u8,
}

/// Days from the first day of year 1 to the first day of `year`.
pub open spec fn days_before_year(year: int) -> int {
    365 * (year - 1) + (year - 1) / 4 - (year - 1) / 100 + (year - 1) / 400
}

/// Days from the first day of `year` to the first day of `month` in it.
pub open spec fn days_before_month(year: int, month: int) -> int {
    let leap: int = if month > 2 && spec_is_leap_year(year) {
        1
    } else {
        0
    };
    if month <= 1 {
        0
    } else if month == 2 {
        31
    } else if month == 3 {
        59 + leap
    } else if month == 4 {
        90 + leap
    } else if month == 5 {
        120 + leap
    } else if month == 6 {
        151 + leap
    } else if month == 7 {
        181 + leap
    } else if month == 8 {
        212 + leap
    } else if month == 9 {
        243 + leap
    } else if month == 10 {
        273 + leap
    } else if month == 11 {
        304 + leap
    } else {
        334 + leap
    }
}

/// Days from the first day of year 1 to the first day of 1970.
pub open spec fn epoch_day() -> int {
    719_162
}

/// Days from the first day of 1970 to the given day; negative before 1970.
pub open spec fn days_from_civil(year: int, month: int, day: int) -> int {
    days_before_year(year) + days_before_month(year, month) + day - 1 - epoch_day()
}

impl CivilTime {
    /// Whether the fields name a day of the calendar and a second of it.
    pub open spec fn is_valid(self) -> bool {
        &&& 1 <= self.month <= 12
        &&& 1 <= self.day <= spec_days_in_month(self.month as int, self.year as int)
        &&& self.hour < 24
        &&& self.minute < 60
        &&& self.second < 60
    }

    /// Seconds from the start of 1970 to this date and time.
    pub open spec fn unix_seconds(self) -> int {
        days_from_civil(self.year as int, self.month as int, self.day as int) * 86_400 + self.hour
            * 3_600 + self.minute * 60 + self.second
    }
}

/// Whether `c` is the date and time of the instant `seconds` after the
/// start of 1970.
pub open spec fn is_civil_of(seconds: int, c: CivilTime) -> bool {
    c.is_valid() && c.unix_seconds() == seconds
}

/// The date and time of the instant `seconds` after the start of 1970.
pub open spec fn civil_of(seconds: int) -> CivilTime {
    choose|c: CivilTime| is_civil_of(seconds, c)
}

/// A year has 365 days, or 366 if it is a leap year.
pub proof fn lemma_year_length(year: int)
    ensures
        days_before_year(year + 1) - days_before_year(year) == (if spec_is_leap_year(year) {
            366int
        } else {
            365int
        }),
{
}

/// The months of a year follow each other, and the last one ends the year.
pub proof fn lemma_month_length(year: int, month: int)
    requires
        1 <= month <= 12,
    ensures
        month < 12 ==> days_before_month(year, month + 1) - days_before_month(year, month)
            == spec_days_in_month(month, year),
        month == 12 ==> days_before_year(year + 1) - days_before_year(year) - days_before_month(
            year,
            month,
        ) == spec_days_in_month(month, year),
        0 <= days_before_month(year, month) <= 335,
{
    lemma_year_length(year);
}

/// Later years start later.
pub proof fn lemma_years_in_order(earlier: int, later: int)
    requires
        earlier <= later,
    ensures
        days_before_year(earlier) <= days_before_year(later),
        earlier < later ==> days_before_year(earlier) + 365 <= days_before_year(later),
    decreases later - earlier,
{
    let n = later - earlier;
    if n > 0 {
        lemma_year_length(earlier);
        lemma_years_in_order(earlier + 1, later);
    }
}

/// A valid date lies within its year.
pub proof fn lemma_date_within_year(year: int, month: int, day: int)
    requires
        1 <= month <= 12,
        1 <= day <= spec_days_in_month(month, year),
    ensures
        days_before_year(year) <= days_before_year(year) + days_before_month(year, month) + day - 1
            < days_before_year(year + 1),
{
    lemma_month_length(year, month);
    lemma_year_length(year);
}

/// Two valid dates on the same day are the same date.
pub proof fn lemma_day_count_is_one_to_one(y1: int, m1: int, d1: int, y2: int, m2: int, d2: int)
    requires
        1 <= m1 <= 12,
        1 <= d1 <= spec_days_in_month(m1, y1),
        1 <= m2 <= 12,
        1 <= d2 <= spec_days_in_month(m2, y2),
        days_from_civil(y1, m1, d1) == days_from_civil(y2, m2, d2),
    ensures
        y1 == y2,
        m1 == m2,
        d1 == d2,
{
    lemma_date_within_year(y1, m1, d1);
    lemma_date_within_year(y2, m2, d2);
    if y1 < y2 {
        lemma_years_in_order(y1 + 1, y2);
    } else if y2 < y1 {
        lemma_years_in_order(y2 + 1, y1);
    } else {
        lemma_month_length(y1, m1);
        lemma_month_length(y2, m2);
        if m1 < m2 {
            lemma_months_in_order(y1, m1 + 1, m2);
        } else if m2 < m1 {
            lemma_months_in_order(y1, m2 + 1, m1);
        }
    }
}

/// Later months start later.
pub proof fn lemma_months_in_order(year: int, earlier: int, later: int)
    requires
        1 <= earlier <= later <= 12,
    ensures
        days_before_month(year, earlier) <= days_before_month(year, later),
{
}

/// An instant has one date and time only.
pub proof fn lemma_civil_is_unique(seconds: int, a: CivilTime, b: CivilTime)
    requires
        is_civil_of(seconds, a),
        is_civil_of(seconds, b),
    ensures
        a == b,
{
    let da = days_from_civil(a.year as int, a.month as int, a.day as int);
    let db = days_from_civil(b.year as int, b.month as int, b.day as int);
    let ta = a.hour * 3_600 + a.minute * 60 + a.second;
    let tb = b.hour * 3_600 + b.minute * 60 + b.second;
    assert(0 <= ta < 86_400 && 0 <= tb < 86_400);
    assert(da * 86_400 + ta == db * 86_400 + tb);
    assert(da == db);
    lemma_day_count_is_one_to_one(
        a.year as int,
        a.month as int,
        a.day as int,
        b.year as int,
        b.month as int,
        b.day as int,
    );
}

/// Days from the first day of year 1 to the first day of `year`.
pub(crate) fn year_start(year: i128) -> (r: i128)
    requires
        -1_000_000_000_000 <= year <= 1_000_000_000_000,
    ensures
        r == days_before_year(year as int),
{
    let p = year - 1;
    365 * p + floor_quotient(p, 4) - floor_quotient(p, 100) + floor_quotient(p, 400)
}

/// The quotient of `a` by a positive `b`, rounded down.
pub(crate) fn floor_quotient(a: i128, b: i128) -> (q: i128)
    requires
        b == 4 || b == 100 || b == 400 || b == 86_400 || b == 146_097,
        -0x4000_0000_0000_0000_0000_0000 <= a <= 0x4000_0000_0000_0000_0000_0000,
    ensures
        q == a as int / b as int,
{
    if b == 4 {
        if a % 4 < 0 {
            a / 4 - 1
        } else {
            a / 4
        }
    } else if b == 100 {
        if a % 100 < 0 {
            a / 100 - 1
        } else {
            a / 100
        }
    } else if b == 400 {
        if a % 400 < 0 {
            a / 400 - 1
        } else {
            a / 400
        }
    } else if b == 86_400 {
        if a % 86_400 < 0 {
            a / 86_400 - 1
        } else {
            a / 86_400
        }
    } else {
        if a % 146_097 < 0 {
            a / 146_097 - 1
        } else {
            a / 146_097
        }
    }
}

/// Whether `year` is a leap year.
pub fn is_leap(year: i128) -> (r: bool)
    ensures
        r == spec_is_leap_year(year as int),
{
    (year % 4 == 0) && ((year % 100 != 0) || (year % 400 == 0))
}

/// Days from the first day of `year` to the first day of `month` in it.
pub(crate) fn month_start(year: i128, month: u8) -> (r: i128)
    requires
        1 <= month <= 12,
    ensures
        r == days_before_month(year as int, month as int),
{
    let leap: i128 = if month > 2 && is_leap(year) {
        1
    } else {
        0
    };
    match month {
        1 => 0,
        2 => 31,
        3 => 59 + leap,
        4 => 90 + leap,
        5 => 120 + leap,
        6 => 151 + leap,
        7 => 181 + leap,
        8 => 212 + leap,
        9 => 243 + leap,
        10 => 273 + leap,
        11 => 304 + leap,
        _ => 334 + leap,
    }
}

/// The date and time of the instant `seconds` after the start of 1970.
pub fn civil_from_seconds(seconds: i64) -> (c: CivilTime)
    ensures
        is_civil_of(seconds as int, c),
        c == civil_of(seconds as int),
        -300_000_000_000 <= c.year <= 300_000_000_000,
{
    let days = floor_quotient(seconds as i128, 86_400);
    let in_day = (seconds as i128) - days * 86_400;
    let z = days + 719_162;
    let mut year: i128 = 1 + floor_quotient(z * 400, 146_097);
    let mut start = year_start(year);
    while start > z
        invariant
            -400_000_000_000 <= year <= 400_000_000_000,
            -110_000_000_000_000 <= z <= 110_000_000_000_000,
            start == days_before_year(year as int),
        decreases start - z + 366,
    {
        proof {
            lemma_year_length(year - 1);
        }
        year = year - 1;
        start = year_start(year);
    }
    let mut next = year_start(year + 1);
    while next <= z
        invariant
            -400_000_000_000 <= year <= 400_000_000_000,
            -110_000_000_000_000 <= z <= 110_000_000_000_000,
            start == days_before_year(year as int),
            next == days_before_year(year + 1),
            start <= z,
        decreases z - start,
    {
        proof {
            lemma_year_length(year as int);
        }
        year = year + 1;
        start = next;
        next = year_start(year + 1);
    }
    let in_year = z - start;
    proof {
        lemma_year_length(year as int);
    }
    let mut month: u8 = 1;
    while month < 12 && month_start(year, month + 1) <= in_year
        invariant
            1 <= month <= 12,
            days_before_month(year as int, month as int) <= in_year,
        decreases 12 - month,
    {
        month = month + 1;
    }
    let day = in_year - month_start(year, month) + 1;
    proof {
        lemma_month_length(year as int, month as int);
    }
    let hour = in_day / 3_600;
    let minute = (in_day % 3_600) / 60;
    let second = in_day % 60;
    let c = CivilTime {
        year: year as i64,
        month,
        day: day as u8,
        hour: hour as u8,
        minute: minute as u8,
        second: second as u8,
    };
    proof {
        assert(is_civil_of(seconds as int, c));
        lemma_civil_is_unique(seconds as int, c, civil_of(seconds as int));
    }
    c
}

/// Seconds from the start of 1970 to a valid date and time, in 128 bits.
pub(crate) fn seconds_from_civil(c: &CivilTime) -> (r: i128)
    requires
        c.is_valid(),
        -1_000_000_000_000 <= c.year <= 1_000_000_000_000,
    ensures
        r == c.unix_seconds(),
{
    let days = year_start(c.year as i128) + month_start(c.year as i128, c.month) + (c.day as i128)
        - 1 - 719_162;
    days * 86_400 + (c.hour as i128) * 3_600 + (c.minute as i128) * 60 + (c.second as i128)
}

} // verus!
