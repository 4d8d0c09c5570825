//! A span between two instants, either of which may be left open.

use core::cmp::Ordering;
use vstd::prelude::*;
use vstd::std_specs::cmp::PartialOrdSpecImpl;

use crate::duration::Duration;
use crate::order::{int_order, order_wide};
use crate::text::owned;
use crate::timestamp::{instant_order, Timestamp};

verus! {

/// A span of time from `start_time` up to `end_time`. A missing bound
/// leaves the span open on that side.
#[derive(Clone, Copy, Debug, PartialEq, Eq)]
pub struct Interval {
    pub start_time: Option<Timestamp>,
    pub end_time: Option<Timestamp>,
}

/// Why an [`Interval`] was refused or could not be converted.
#[derive(Clone, Debug, PartialEq, Eq)]
#[non_exhaustive]
pub enum IntervalError {
    /// The end lies before the start.
    EndTimeBeforeStartTime,
    /// The interval cannot be converted; the message says why.
    ConversionError(String),
}

/// Whether the end, where both bounds are given, is not before the start.
pub open spec fn is_valid_interval(start: Option<Timestamp>, end: Option<Timestamp>) -> bool {
    match (start, end) {
        (Some(s), Some(e)) => !(instant_order(e, s) is Less),
        _ => true,
    }
}

/// Checks that the end is not before the start.
pub fn validate_interval(start: Option<Timestamp>, end: Option<Timestamp>) -> (r: Result<
    (),
    IntervalError,
>)
    ensures
        r == (if is_valid_interval(start, end) {
            Ok::<(), IntervalError>(())
        } else {
            Err::<(), IntervalError>(IntervalError::EndTimeBeforeStartTime)
        }),
{
    match (start, end) {
        (Some(s), Some(e)) => {
            if e < s {
                Err(IntervalError::EndTimeBeforeStartTime)
            } else {
                Ok(())
            }
        },
        _ => Ok(()),
    }
}

/// The message for an interval with an open side.
pub open spec fn open_interval_message() -> Seq<char> {
    "Cannot convert to Duration due to missing start or end time"@
}

/// The message for an interval too long for a duration.
pub open spec fn long_interval_message() -> Seq<char> {
    "Cannot convert to Duration because the span does not fit"@
}

impl Interval {
    /// Whether the end is not before the start.
    pub open spec fn spec_is_valid(self) -> bool {
        is_valid_interval(self.start_time, self.end_time)
    }

    /// Whether both bounds are given and equal.
    pub open spec fn spec_is_empty(self) -> bool {
        match (self.start_time, self.end_time) {
            (Some(s), Some(e)) => s == e,
            _ => false,
        }
    }

    /// Nanoseconds from the start to the end, where both are given.
    pub open spec fn spec_span(self) -> Option<int> {
        match (self.start_time, self.end_time) {
            (Some(s), Some(e)) => Some(e.spec_total_nanos() - s.spec_total_nanos()),
            _ => None,
        }
    }

    /// The length of the interval as a duration, where both bounds are
    /// given and the length fits.
    pub open spec fn spec_length(self) -> Option<Duration> {
        match self.spec_span() {
            Some(span) => Duration::spec_from_total_nanos(span),
            None => None,
        }
    }

    /// An interval from its bounds, if the end is not before the start.
    pub fn new(start_time: Option<Timestamp>, end_time: Option<Timestamp>) -> (r: Result<
        Self,
        IntervalError,
    >)
        ensures
            r == (if is_valid_interval(start_time, end_time) {
                Ok::<Interval, IntervalError>(Interval { start_time, end_time })
            } else {
                Err::<Interval, IntervalError>(IntervalError::EndTimeBeforeStartTime)
            }),
    {
        match validate_interval(start_time, end_time) {
            Ok(_) => Ok(Self { start_time, end_time }),
            Err(e) => Err(e),
        }
    }

    /// The interval from the present moment `now` to `end_time`. The bounds
    /// are taken as they are.
    #[must_use]
    pub fn from_now_to(now: Timestamp, end_time: Timestamp) -> (r: Self)
        ensures
            r == (Interval { start_time: Some(now), end_time: Some(end_time) }),
    {
        Self { start_time: Some(now), end_time: Some(end_time) }
    }

    /// The interval from `start_time` to the present moment `now`. The
    /// bounds are taken as they are.
    #[must_use]
    pub fn from_start_to_now(start_time: Timestamp, now: Timestamp) -> (r: Self)
        ensures
            r == (Interval { start_time: Some(start_time), end_time: Some(now) }),
    {
        Self { start_time: Some(start_time), end_time: Some(now) }
    }

    /// Whether the end is not before the start.
    #[must_use]
    pub fn is_valid(&self) -> (r: bool)
        ensures
            r == self.spec_is_valid(),
    {
        validate_interval(self.start_time, self.end_time).is_ok()
    }

    /// Whether both bounds are given and equal.
    #[must_use]
    pub fn is_empty(&self) -> (r: bool)
        ensures
            r == self.spec_is_empty(),
    {
        match (self.start_time, self.end_time) {
            (Some(s), Some(e)) => s.seconds == e.seconds && s.nanos == e.nanos,
            _ => false,
        }
    }

    /// Whether neither bound is given.
    #[must_use]
    pub fn is_unspecified(&self) -> (r: bool)
        ensures
            r == (self.start_time is None && self.end_time is None),
    {
        self.start_time.is_none() && self.end_time.is_none()
    }

    /// Nanoseconds from the start to the end, where both are given.
    pub fn span_nanos(&self) -> (r: Option<i128>)
        ensures
            match self.spec_span() {
                Some(span) => r == Some(span as i128) && r.unwrap() == span,
                None => r is None,
            },
    {
        match (self.start_time, self.end_time) {
            (Some(s), Some(e)) => {
                let start = crate::arith::widen(s.seconds, s.nanos as i64);
                let end = crate::arith::widen(e.seconds, e.nanos as i64);
                Some(end - start)
            },
            _ => None,
        }
    }

    /// The length of the interval as a duration in normal form. An
    /// interval with an open side, or one too long for a duration, gives a
    /// `ConversionError` with a message that says which.
    pub fn to_duration(&self) -> (r: Result<Duration, IntervalError>)
        ensures
            match r {
                Ok(d) => self.spec_length() == Some(d),
                Err(IntervalError::ConversionError(message)) => self.spec_length() is None
                    && message@ == (if self.spec_span() is None {
                    open_interval_message()
                } else {
                    long_interval_message()
                }),
                Err(_) => false,
            },
    {
        match self.span_nanos() {
            Some(span) => match Duration::from_total_nanos(span) {
                Some(d) => Ok(d),
                None => Err(
                    IntervalError::ConversionError(
                        owned("Cannot convert to Duration because the span does not fit"),
                    ),
                ),
            },
            None => Err(
                IntervalError::ConversionError(
                    owned("Cannot convert to Duration due to missing start or end time"),
                ),
            ),
        }
    }
}

/// How two lengths stand to each other, where a missing length counts as
/// unbounded: above every length, and equal to another missing one.
pub open spec fn length_order(a: Option<Duration>, b: Option<Duration>) -> Ordering {
    match (a, b) {
        (Some(x), Some(y)) => int_order(x.spec_total_nanos(), y.spec_total_nanos()),
        (Some(_), None) => Ordering::Less,
        (None, Some(_)) => Ordering::Greater,
        (None, None) => Ordering::Equal,
    }
}

impl PartialOrd for Interval {
    /// Valid intervals are ordered by length: an empty interval comes
    /// first, then the bounded ones by their length, then the unbounded
    /// ones, which are all equal. An invalid interval is not comparable.
    fn partial_cmp(&self, other: &Self) -> (r: Option<Ordering>) {
        if !self.is_valid() || !other.is_valid() {
            return None;
        }
        if self.is_empty() {
            return if other.is_empty() {
                Some(Ordering::Equal)
            } else {
                Some(Ordering::Less)
            };
        }
        if other.is_empty() {
            return Some(Ordering::Greater);
        }
        match (self.to_duration(), other.to_duration()) {
            (Ok(a), Ok(b)) => Some(order_wide(a.total_nanos(), b.total_nanos())),
            (Ok(_), Err(_)) => Some(Ordering::Less),
            (Err(_), Ok(_)) => Some(Ordering::Greater),
            (Err(_), Err(_)) => Some(Ordering::Equal),
        }
    }
}

impl PartialOrdSpecImpl for Interval {
    open spec fn obeys_partial_cmp_spec() -> bool {
        true
    }

    open spec fn partial_cmp_spec(&self, other: &Self) -> Option<Ordering> {
        if !self.spec_is_valid() || !other.spec_is_valid() {
            None
        } else if self.spec_is_empty() {
            if other.spec_is_empty() {
                Some(Ordering::Equal)
            } else {
                Some(Ordering::Less)
            }
        } else if other.spec_is_empty() {
            Some(Ordering::Greater)
        } else {
            Some(length_order(self.spec_length(), other.spec_length()))
        }
    }
}

} // verus!
