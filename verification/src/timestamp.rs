//! An instant, kept as whole seconds and nanoseconds since the Unix epoch.

use core::cmp::Ordering;
use core::ops::{Add, Sub};
use vstd::prelude::*;
use vstd::std_specs::cmp::PartialOrdSpecImpl;
use vstd::std_specs::ops::{AddSpecImpl, SubSpecImpl};

use crate::arith::{base, clamp, total_of};
use crate::duration::Duration;
use crate::order::order_i64;

verus! {

/// An instant: `seconds` since the Unix epoch and `nanos` billionths of a
/// second after that. In a normal value `nanos` is from 0 to 999,999,999,
/// also for instants before the epoch.
#[derive(Clone, Copy, Debug, PartialEq, Eq, Structural, Hash)]
pub struct Timestamp {
    pub seconds: i64,
    pub nanos: i32,
}

/// Why a [`Timestamp`] could not be read or converted.
#[derive(Clone, Copy, Debug, PartialEq, Eq, Structural)]
#[non_exhaustive]
pub enum TimestampError {
    /// The instant is outside the range of the clock of the system.
    OutOfSystemRange(Timestamp),
    /// The text is not in the form of a timestamp.
    ParseFailure,
    /// The text names a date or a time that does not exist, or an instant
    /// that a timestamp cannot hold.
    InvalidDateTime,
}

/// Total of the latest normal instant, in nanoseconds.
pub const TIMESTAMP_MAX_TOTAL: i128 = 9_223_372_036_854_775_807_999_999_999;

/// Total of the earliest normal instant, in nanoseconds.
pub const TIMESTAMP_MIN_TOTAL: i128 = -9_223_372_036_854_775_808_000_000_000;

/// The normal instant that `seconds` and `nanos` stand for, or the nearest
/// normal instant where theirs cannot be represented. The seconds are the
/// total divided by the base and rounded down, so that the nanoseconds are
/// never negative.
pub open spec fn instant_of(seconds: int, nanos: int) -> Timestamp {
    let total = clamp(
        total_of(seconds, nanos),
        TIMESTAMP_MIN_TOTAL as int,
        TIMESTAMP_MAX_TOTAL as int,
    );
    Timestamp { seconds: (total / base()) as i64, nanos: (total % base()) as i32 }
}

/// `x` limited to the range of `i64`.
pub open spec fn saturated(x: int) -> int {
    clamp(x, i64::MIN as int, i64::MAX as int)
}

/// The normal instant for seconds and nanoseconds held in 128 bits.
pub(crate) fn normal_instant(seconds: i128, nanos: i128) -> (r: Timestamp)
    requires
        -0x1_0000_0000_0000_0000 <= seconds <= 0x1_0000_0000_0000_0000,
        -0x1_0000_0000_0000_0000 <= nanos <= 0x1_0000_0000_0000_0000,
    ensures
        r == instant_of(seconds as int, nanos as int),
        r.is_normalized(),
{
    let total: i128 = seconds * 1_000_000_000i128 + nanos;
    let limited: i128 = if total < TIMESTAMP_MIN_TOTAL {
        TIMESTAMP_MIN_TOTAL
    } else if total > TIMESTAMP_MAX_TOTAL {
        TIMESTAMP_MAX_TOTAL
    } else {
        total
    };
    let mut whole: i128 = limited / 1_000_000_000i128;
    let mut rest: i128 = limited % 1_000_000_000i128;
    if rest < 0 {
        whole = whole - 1;
        rest = rest + 1_000_000_000i128;
    }
    Timestamp { seconds: whole as i64, nanos: rest as i32 }
}

/// The sum of two 64-bit integers, limited to the range of `i64`.
pub(crate) fn saturating_sum(a: i64, b: i128) -> (r: i64)
    requires
        -0x1_0000_0000_0000_0000 <= b <= 0x1_0000_0000_0000_0000,
    ensures
        r == saturated(a + b),
{
    let sum: i128 = (a as i128) + b;
    if sum > 9_223_372_036_854_775_807i128 {
        i64::MAX
    } else if sum < -9_223_372_036_854_775_808i128 {
        i64::MIN
    } else {
        sum as i64
    }
}

impl Timestamp {
    /// The instant in nanoseconds since the epoch.
    pub open spec fn spec_total_nanos(self) -> int {
        total_of(self.seconds as int, self.nanos as int)
    }

    /// Whether the nanoseconds are in their normal range.
    pub open spec fn is_normalized(self) -> bool {
        0 <= self.nanos < 1_000_000_000
    }

    /// The normal form of this instant.
    pub open spec fn spec_normalized(self) -> Timestamp {
        instant_of(self.seconds as int, self.nanos as int)
    }

    /// The instant moved forward by a duration: the whole seconds are
    /// added with saturation, then the sum is brought to normal form.
    pub open spec fn spec_add(self, d: Duration) -> Timestamp {
        instant_of(
            saturated(self.seconds + d.spec_normalized().seconds),
            self.nanos + d.spec_normalized().nanos,
        )
    }

    /// The instant moved back by a duration: the whole seconds are
    /// subtracted with saturation, then the result is brought to normal form.
    pub open spec fn spec_sub(self, d: Duration) -> Timestamp {
        instant_of(
            saturated(self.seconds - d.spec_normalized().seconds),
            self.nanos - d.spec_normalized().nanos,
        )
    }

    /// The instant moved forward by unsigned seconds and nanoseconds.
    pub open spec fn spec_add_unsigned(self, seconds: u64, nanos: u32) -> Timestamp {
        instant_of(saturated(self.seconds + seconds), self.nanos + nanos)
    }

    /// The instant moved back by unsigned seconds and nanoseconds.
    pub open spec fn spec_sub_unsigned(self, seconds: u64, nanos: u32) -> Timestamp {
        instant_of(saturated(self.seconds - seconds), self.nanos - nanos)
    }

    /// An instant from seconds and nanoseconds, brought into normal form.
    #[must_use]
    pub fn new(seconds: i64, nanos: i32) -> (r: Self)
        ensures
            r == instant_of(seconds as int, nanos as int),
            r.is_normalized(),
    {
        normal_instant(seconds as i128, nanos as i128)
    }

    /// Brings the fields into normal form, saturating at the earliest and
    /// the latest normal instant.
    pub fn normalize(&mut self)
        ensures
            *final(self) == old(self).spec_normalized(),
            final(self).is_normalized(),
    {
        let normal = normal_instant(self.seconds as i128, self.nanos as i128);
        self.seconds = normal.seconds;
        self.nanos = normal.nanos;
    }

    /// A copy in normal form.
    #[must_use]
    pub fn normalized(&self) -> (r: Self)
        ensures
            r == self.spec_normalized(),
            r.is_normalized(),
    {
        normal_instant(self.seconds as i128, self.nanos as i128)
    }

    /// The instant moved forward by `duration`, saturating at the bounds.
    #[must_use]
    pub fn saturating_add(&self, duration: &Duration) -> (r: Self)
        ensures
            r == self.spec_add(*duration),
            r.is_normalized(),
    {
        let d = duration.normalized();
        let seconds = saturating_sum(self.seconds, d.seconds as i128);
        normal_instant(seconds as i128, (self.nanos as i128) + (d.nanos as i128))
    }

    /// The instant moved back by `duration`, saturating at the bounds.
    #[must_use]
    pub fn saturating_sub(&self, duration: &Duration) -> (r: Self)
        ensures
            r == self.spec_sub(*duration),
            r.is_normalized(),
    {
        let d = duration.normalized();
        let seconds = saturating_sum(self.seconds, -(d.seconds as i128));
        normal_instant(seconds as i128, (self.nanos as i128) - (d.nanos as i128))
    }

    /// The instant moved forward by unsigned seconds and nanoseconds,
    /// saturating at the latest instant.
    #[must_use]
    pub fn saturating_add_unsigned(&self, seconds: u64, nanos: u32) -> (r: Self)
        ensures
            r == self.spec_add_unsigned(seconds, nanos),
            r.is_normalized(),
    {
        let whole = saturating_sum(self.seconds, seconds as i128);
        normal_instant(whole as i128, (self.nanos as i128) + (nanos as i128))
    }

    /// The instant moved back by unsigned seconds and nanoseconds,
    /// saturating at the earliest instant.
    #[must_use]
    pub fn saturating_sub_unsigned(&self, seconds: u64, nanos: u32) -> (r: Self)
        ensures
            r == self.spec_sub_unsigned(seconds, nanos),
            r.is_normalized(),
    {
        let whole = saturating_sum(self.seconds, -(seconds as i128));
        normal_instant(whole as i128, (self.nanos as i128) - (nanos as i128))
    }
}

impl Timestamp {
    /// The instant that lies `seconds` and `nanos` after the epoch, as a
    /// clock of the system reports it; saturating at the latest instant.
    #[must_use]
    pub fn since_epoch(seconds: u64, nanos: u32) -> (r: Self)
        ensures
            r == instant_of(seconds as int, nanos as int),
            r.is_normalized(),
    {
        normal_instant(seconds as i128, nanos as i128)
    }

    /// The instant that lies `seconds` and `nanos` before the epoch;
    /// saturating at the earliest instant.
    #[must_use]
    pub fn before_epoch(seconds: u64, nanos: u32) -> (r: Self)
        ensures
            r == instant_of(-(seconds as int), -(nanos as int)),
            r.is_normalized(),
    {
        normal_instant(-(seconds as i128), -(nanos as i128))
    }

    /// The distance of the instant from the epoch: whether it lies before
    /// the epoch, and the whole seconds and the nanoseconds of the distance.
    #[must_use]
    pub fn epoch_distance(&self) -> (r: (bool, u64, u32))
        ensures
            r.0 == (self.spec_normalized().spec_total_nanos() < 0),
            r.1 == crate::arith::abs_int(self.spec_normalized().spec_total_nanos()) / base(),
            r.2 == crate::arith::abs_int(self.spec_normalized().spec_total_nanos()) % base(),
    {
        let normal = self.normalized();
        let total: i128 = (normal.seconds as i128) * 1_000_000_000i128 + (normal.nanos as i128);
        let size: i128 = if total < 0 {
            -total
        } else {
            total
        };
        (total < 0, (size / 1_000_000_000i128) as u64, (size % 1_000_000_000i128) as u32)
    }
}

impl core::str::FromStr for Timestamp {
    type Err = TimestampError;

    /// Reads an instant from its text at UTC, as the inherent function of
    /// the same name does: `ParseFailure` for a text that is not in the
    /// form, `InvalidDateTime` for a date or time that does not exist or
    /// an instant beyond 64 bits of seconds, else the instant.
    fn from_str(s: &str) -> (r: Result<Self, TimestampError>)
        ensures
            r == crate::timestamp_text::spec_parse_timestamp(s@),
    {
        Timestamp::from_str(s)
    }
}

impl Default for Timestamp {
    fn default() -> (r: Self)
        ensures
            r == (Timestamp { seconds: 0, nanos: 0 }),
    {
        Timestamp { seconds: 0, nanos: 0 }
    }
}

impl Add<Duration> for Timestamp {
    type Output = Timestamp;

    fn add(self, rhs: Duration) -> (r: Timestamp) {
        self.saturating_add(&rhs)
    }
}

impl AddSpecImpl<Duration> for Timestamp {
    open spec fn obeys_add_spec() -> bool {
        true
    }

    open spec fn add_req(self, rhs: Duration) -> bool {
        true
    }

    open spec fn add_spec(self, rhs: Duration) -> Timestamp {
        self.spec_add(rhs)
    }
}

impl Sub<Duration> for Timestamp {
    type Output = Timestamp;

    fn sub(self, rhs: Duration) -> (r: Timestamp) {
        self.saturating_sub(&rhs)
    }
}

impl SubSpecImpl<Duration> for Timestamp {
    open spec fn obeys_sub_spec() -> bool {
        true
    }

    open spec fn sub_req(self, rhs: Duration) -> bool {
        true
    }

    open spec fn sub_spec(self, rhs: Duration) -> Timestamp {
        self.spec_sub(rhs)
    }
}

impl<'a, 'b> Add<&'b Duration> for &'a Timestamp {
    type Output = Timestamp;

    fn add(self, rhs: &'b Duration) -> (r: Timestamp) {
        self.saturating_add(rhs)
    }
}

impl<'a, 'b> AddSpecImpl<&'b Duration> for &'a Timestamp {
    open spec fn obeys_add_spec() -> bool {
        true
    }

    open spec fn add_req(self, rhs: &'b Duration) -> bool {
        true
    }

    open spec fn add_spec(self, rhs: &'b Duration) -> Timestamp {
        self.spec_add(*rhs)
    }
}

impl<'a, 'b> Sub<&'b Duration> for &'a Timestamp {
    type Output = Timestamp;

    fn sub(self, rhs: &'b Duration) -> (r: Timestamp) {
        self.saturating_sub(rhs)
    }
}

impl<'a, 'b> SubSpecImpl<&'b Duration> for &'a Timestamp {
    open spec fn obeys_sub_spec() -> bool {
        true
    }

    open spec fn sub_req(self, rhs: &'b Duration) -> bool {
        true
    }

    open spec fn sub_spec(self, rhs: &'b Duration) -> Timestamp {
        self.spec_sub(*rhs)
    }
}

/// Seconds first, then nanoseconds.
pub open spec fn instant_order(a: Timestamp, b: Timestamp) -> Ordering {
    if a.seconds < b.seconds {
        Ordering::Less
    } else if a.seconds > b.seconds {
        Ordering::Greater
    } else if a.nanos < b.nanos {
        Ordering::Less
    } else if a.nanos > b.nanos {
        Ordering::Greater
    } else {
        Ordering::Equal
    }
}

impl PartialOrd for Timestamp {
    /// Instants are ordered by seconds, then by nanoseconds; any two
    /// instants are comparable.
    fn partial_cmp(&self, other: &Self) -> (r: Option<Ordering>) {
        match order_i64(self.seconds, other.seconds) {
            Ordering::Equal => Some(crate::order::order_i32(self.nanos, other.nanos)),
            by_seconds => Some(by_seconds),
        }
    }
}

impl PartialOrdSpecImpl for Timestamp {
    open spec fn obeys_partial_cmp_spec() -> bool {
        true
    }

    open spec fn partial_cmp_spec(&self, other: &Self) -> Option<Ordering> {
        Some(instant_order(*self, *other))
    }
}

/// Every instant that the constructors and the arithmetic give is in
/// normal form, and it is the instant asked for where that can be held.
pub proof fn lemma_instant_is_normal(seconds: int, nanos: int)
    ensures
        instant_of(seconds, nanos).is_normalized(),
        TIMESTAMP_MIN_TOTAL <= total_of(seconds, nanos) <= TIMESTAMP_MAX_TOTAL ==> instant_of(
            seconds,
            nanos,
        ).spec_total_nanos() == total_of(seconds, nanos),
{
}

/// For instants in normal form the order by fields is the order in time.
pub proof fn lemma_instant_order_is_by_total(a: Timestamp, b: Timestamp)
    requires
        a.is_normalized(),
        b.is_normalized(),
    ensures
        instant_order(a, b) == crate::order::int_order(
            a.spec_total_nanos(),
            b.spec_total_nanos(),
        ),
{
}

/// Adding a duration moves a normal instant by exactly that duration
/// where the result is within the representable range.
pub proof fn lemma_add_is_exact_in_range(t: Timestamp, d: Duration)
    requires
        t.is_normalized(),
        d.is_normalized(),
        TIMESTAMP_MIN_TOTAL <= t.spec_total_nanos() + d.spec_total_nanos() <= TIMESTAMP_MAX_TOTAL,
        i64::MIN <= t.seconds + d.seconds <= i64::MAX,
    ensures
        t.spec_add(d).spec_total_nanos() == t.spec_total_nanos() + d.spec_total_nanos(),
{
}

} // verus!
