//! Counts of calendar-like units, each with its English rendering.

use vstd::prelude::*;
use vstd::string::StringExecFns;

use crate::text::{decimal, push_decimal};

verus! {

/// A count and the name of its unit, in English: the count in decimal, a
/// space, the name, and an `s` unless the count is one.
pub open spec fn unit_text(value: nat, name: Seq<char>) -> Seq<char> {
    decimal(value) + seq![' '] + name + (if value != 1 {
        seq!['s']
    } else {
        Seq::<char>::empty()
    })
}

/// The text of a count of the unit called `name`.
pub fn unit_string(value: u64, name: &str) -> (r: String)
    ensures
        r@ == unit_text(value as nat, name@),
{
    let mut out = String::new();
    push_decimal(&mut out, value as u128);
    out.push(' ');
    out.append(name);
    if value != 1 {
        out.push('s');
    }
    assert(out@ =~= unit_text(value as nat, name@));
    out
}

/// A count of seconds.
#[derive(Clone, Copy, Debug, Default, PartialEq, Eq, Structural, PartialOrd, Ord, Hash)]
pub struct Seconds {
    pub value: u64,
}

impl Seconds {
    /// The count as text, such as "1 second" or "2 seconds".
    pub open spec fn text(self) -> Seq<char> {
        unit_text(self.value as nat, "second"@)
    }

    /// The count as text.
    #[must_use]
    pub fn to_string(&self) -> (r: String)
        ensures
            r@ == self.text(),
    {
        unit_string(self.value, "second")
    }

    /// The count as text, unless it is zero.
    #[must_use]
    pub fn format_if_nonzero(&self) -> (r: Option<String>)
        ensures
            self.value == 0 ==> r is None,
            self.value != 0 ==> r is Some && r.unwrap()@ == self.text(),
    {
        if self.is_zero() {
            return None;
        }
        Some(self.to_string())
    }

    /// Whether the count is zero.
    pub fn is_zero(&self) -> (r: bool)
        ensures
            r == (self.value == 0),
    {
        self.value == 0
    }
}

/// A count of minutes.
#[derive(Clone, Copy, Debug, Default, PartialEq, Eq, Structural, PartialOrd, Ord, Hash)]
pub struct Minutes {
    pub value: u64,
}

impl Minutes {
    /// The count as text, such as "1 minute" or "2 minutes".
    pub open spec fn text(self) -> Seq<char> {
        unit_text(self.value as nat, "minute"@)
    }

    /// The count as text.
    #[must_use]
    pub fn to_string(&self) -> (r: String)
        ensures
            r@ == self.text(),
    {
        unit_string(self.value, "minute")
    }

    /// The count as text, unless it is zero.
    #[must_use]
    pub fn format_if_nonzero(&self) -> (r: Option<String>)
        ensures
            self.value == 0 ==> r is None,
            self.value != 0 ==> r is Some && r.unwrap()@ == self.text(),
    {
        if self.is_zero() {
            return None;
        }
        Some(self.to_string())
    }

    /// Whether the count is zero.
    pub fn is_zero(&self) -> (r: bool)
        ensures
            r == (self.value == 0),
    {
        self.value == 0
    }
}

/// A count of hours.
#[derive(Clone, Copy, Debug, Default, PartialEq, Eq, Structural, PartialOrd, Ord, Hash)]
pub struct Hours {
    pub value: u64,
}

impl Hours {
    /// The count as text, such as "1 hour" or "2 hours".
    pub open spec fn text(self) -> Seq<char> {
        unit_text(self.value as nat, "hour"@)
    }

    /// The count as text.
    #[must_use]
    pub fn to_string(&self) -> (r: String)
        ensures
            r@ == self.text(),
    {
        unit_string(self.value, "hour")
    }

    /// The count as text, unless it is zero.
    #[must_use]
    pub fn format_if_nonzero(&self) -> (r: Option<String>)
        ensures
            self.value == 0 ==> r is None,
            self.value != 0 ==> r is Some && r.unwrap()@ == self.text(),
    {
        if self.is_zero() {
            return None;
        }
        Some(self.to_string())
    }

    /// Whether the count is zero.
    pub fn is_zero(&self) -> (r: bool)
        ensures
            r == (self.value == 0),
    {
        self.value == 0
    }
}

/// A count of days.
#[derive(Clone, Copy, Debug, Default, PartialEq, Eq, Structural, PartialOrd, Ord, Hash)]
pub struct Days {
    pub value: u64,
}

impl Days {
    /// The count as text, such as "1 day" or "2 days".
    pub open spec fn text(self) -> Seq<char> {
        unit_text(self.value as nat, "day"@)
    }

    /// The count as text.
    #[must_use]
    pub fn to_string(&self) -> (r: String)
        ensures
            r@ == self.text(),
    {
        unit_string(self.value, "day")
    }

    /// The count as text, unless it is zero.
    #[must_use]
    pub fn format_if_nonzero(&self) -> (r: Option<String>)
        ensures
            self.value == 0 ==> r is None,
            self.value != 0 ==> r is Some && r.unwrap()@ == self.text(),
    {
        if self.is_zero() {
            return None;
        }
        Some(self.to_string())
    }

    /// Whether the count is zero.
    pub fn is_zero(&self) -> (r: bool)
        ensures
            r == (self.value == 0),
    {
        self.value == 0
    }
}

/// A count of weeks.
#[derive(Clone, Copy, Debug, Default, PartialEq, Eq, Structural, PartialOrd, Ord, Hash)]
pub struct Weeks {
    pub value: u64,
}

impl Weeks {
    /// The count as text, such as "1 week" or "2 weeks".
    pub open spec fn text(self) -> Seq<char> {
        unit_text(self.value as nat, "week"@)
    }

    /// The count as text.
    #[must_use]
    pub fn to_string(&self) -> (r: String)
        ensures
            r@ == self.text(),
    {
        unit_string(self.value, "week")
    }

    /// The count as text, unless it is zero.
    #[must_use]
    pub fn format_if_nonzero(&self) -> (r: Option<String>)
        ensures
            self.value == 0 ==> r is None,
            self.value != 0 ==> r is Some && r.unwrap()@ == self.text(),
    {
        if self.is_zero() {
            return None;
        }
        Some(self.to_string())
    }

    /// Whether the count is zero.
    pub fn is_zero(&self) -> (r: bool)
        ensures
            r == (self.value == 0),
    {
        self.value == 0
    }
}

/// A count of months.
#[derive(Clone, Copy, Debug, Default, PartialEq, Eq, Structural, PartialOrd, Ord, Hash)]
pub struct Months {
    pub value: u64,
}

impl Months {
    /// The count as text, such as "1 month" or "2 months".
    pub open spec fn text(self) -> Seq<char> {
        unit_text(self.value as nat, "month"@)
    }

    /// The count as text.
    #[must_use]
    pub fn to_string(&self) -> (r: String)
        ensures
            r@ == self.text(),
    {
        unit_string(self.value, "month")
    }

    /// The count as text, unless it is zero.
    #[must_use]
    pub fn format_if_nonzero(&self) -> (r: Option<String>)
        ensures
            self.value == 0 ==> r is None,
            self.value != 0 ==> r is Some && r.unwrap()@ == self.text(),
    {
        if self.is_zero() {
            return None;
        }
        Some(self.to_string())
    }

    /// Whether the count is zero.
    pub fn is_zero(&self) -> (r: bool)
        ensures
            r == (self.value == 0),
    {
        self.value == 0
    }
}

/// A count of years.
#[derive(Clone, Copy, Debug, Default, PartialEq, Eq, Structural, PartialOrd, Ord, Hash)]
pub struct Years {
    pub value: u64,
}

impl Years {
    /// The count as text, such as "1 year" or "2 years".
    pub open spec fn text(self) -> Seq<char> {
        unit_text(self.value as nat, "year"@)
    }

    /// The count as text.
    #[must_use]
    pub fn to_string(&self) -> (r: String)
        ensures
            r@ == self.text(),
    {
        unit_string(self.value, "year")
    }

    /// The count as text, unless it is zero.
    #[must_use]
    pub fn format_if_nonzero(&self) -> (r: Option<String>)
        ensures
            self.value == 0 ==> r is None,
            self.value != 0 ==> r is Some && r.unwrap()@ == self.text(),
    {
        if self.is_zero() {
            return None;
        }
        Some(self.to_string())
    }

    /// Whether the count is zero.
    pub fn is_zero(&self) -> (r: bool)
        ensures
            r == (self.value == 0),
    {
        self.value == 0
    }
}

} // verus!
