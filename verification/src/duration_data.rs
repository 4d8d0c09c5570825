//! A duration taken apart into calendar-like units.

use vstd::prelude::*;

use crate::arith::{abs_int, magnitude};
use crate::duration::Duration;
use crate::duration_units::{Days, Hours, Minutes, Months, Seconds, Weeks, Years};

verus! {

/// Seconds in a minute.
pub const SECONDS_PER_MINUTE: u64 = 60;

/// Seconds in an hour.
pub const SECONDS_PER_HOUR: u64 = 3_600;

/// Seconds in a day.
pub const SECONDS_PER_DAY: u64 = 86_400;

/// Seconds in a week.
pub const SECONDS_PER_WEEK: u64 = 604_800;

/// Seconds in a month, taken as a twelfth of a year of 365.25 days. Months
/// differ in length, so this is an approximation by convention.
pub const SECONDS_PER_MONTH: u64 = 2_629_800;

/// Seconds in a year of 365.25 days. An approximation by convention.
pub const SECONDS_PER_YEAR: u64 = 31_557_600;

/// The whole seconds of a duration, taken apart.
///
/// `months`, `days`, `hours`, `minutes` and `seconds` split the magnitude of
/// the whole seconds greedily, the largest unit first, and add up to it.
/// `years` and `weeks` stand beside that split: each counts how many whole
/// units of its kind the same magnitude holds.
#[derive(Clone, Copy, Debug, Default, PartialEq, Eq, Structural, Hash)]
pub struct DurationData {
    pub years: Years,
    pub months: Months,
    pub weeks: Weeks,
    pub days: Days,
    pub hours: Hours,
    pub minutes: Minutes,
    pub seconds: Seconds,
    pub is_negative: bool,
}

impl Duration {
    /// The magnitude of the whole seconds of the duration in normal form.
    pub open spec fn spec_whole_seconds(self) -> nat {
        abs_int(self.spec_normalized().seconds as int) as nat
    }

    /// The duration taken apart into units; see [`DurationData`].
    pub open spec fn spec_data(self) -> DurationData {
        let total = self.spec_whole_seconds();
        let in_month = total % (SECONDS_PER_MONTH as nat);
        let in_day = in_month % (SECONDS_PER_DAY as nat);
        let in_hour = in_day % (SECONDS_PER_HOUR as nat);
        DurationData {
            years: Years { value: (total / (SECONDS_PER_YEAR as nat)) as u64 },
            months: Months { value: (total / (SECONDS_PER_MONTH as nat)) as u64 },
            weeks: Weeks { value: (total / (SECONDS_PER_WEEK as nat)) as u64 },
            days: Days { value: (in_month / (SECONDS_PER_DAY as nat)) as u64 },
            hours: Hours { value: (in_day / (SECONDS_PER_HOUR as nat)) as u64 },
            minutes: Minutes { value: (in_hour / (SECONDS_PER_MINUTE as nat)) as u64 },
            seconds: Seconds { value: (in_hour % (SECONDS_PER_MINUTE as nat)) as u64 },
            is_negative: self.spec_normalized().spec_total_nanos() < 0,
        }
    }

    /// Takes the duration apart into units; see [`DurationData`].
    #[must_use]
    pub fn get_data(&self) -> (data: DurationData)
        ensures
            data == self.spec_data(),
            data.months.value * SECONDS_PER_MONTH + data.days.value * SECONDS_PER_DAY
                + data.hours.value * SECONDS_PER_HOUR + data.minutes.value * SECONDS_PER_MINUTE
                + data.seconds.value == self.spec_whole_seconds(),
            data.days.value <= 30,
            data.hours.value <= 23,
            data.minutes.value <= 59,
            data.seconds.value <= 59,
    {
        let normal = self.normalized();
        let total: u64 = magnitude(normal.seconds);
        let in_month = total % SECONDS_PER_MONTH;
        let in_day = in_month % SECONDS_PER_DAY;
        let in_hour = in_day % SECONDS_PER_HOUR;
        DurationData {
            years: Years { value: total / SECONDS_PER_YEAR },
            months: Months { value: total / SECONDS_PER_MONTH },
            weeks: Weeks { value: total / SECONDS_PER_WEEK },
            days: Days { value: in_month / SECONDS_PER_DAY },
            hours: Hours { value: in_day / SECONDS_PER_HOUR },
            minutes: Minutes { value: in_hour / SECONDS_PER_MINUTE },
            seconds: Seconds { value: in_hour % SECONDS_PER_MINUTE },
            is_negative: normal.is_negative(),
        }
    }
}

} // verus!
