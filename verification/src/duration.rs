//! A signed span of time, kept as whole seconds and nanoseconds.

use core::cmp::Ordering;
use core::ops::{Add, Div, Mul, Sub};
use vstd::prelude::*;
use vstd::std_specs::cmp::PartialOrdSpecImpl;
use vstd::std_specs::ops::{AddSpecImpl, DivSpecImpl, MulSpecImpl, SubSpecImpl};

use crate::arith::{
    clamp, fits_i64, frac_of, is_normal, narrow_whole, split_total, total_of, trunc_div, whole_of,
    widen,
};
use crate::order::int_order;

verus! {

/// A signed, fixed-length span of time: `seconds` whole seconds and `nanos`
/// billionths of a second. In a normal value `nanos` is below one second in
/// magnitude and does not disagree in sign with `seconds`.
#[derive(Clone, Copy, Debug, PartialEq, Eq, Structural, Hash)]
pub struct Duration {
    pub seconds: i64,
    pub nanos: i32,
}

/// Total of the greatest normal duration, in nanoseconds.
pub const DURATION_MAX_TOTAL: i128 = 9_223_372_036_854_775_807_999_999_999;

/// Total of the least normal duration, in nanoseconds.
pub const DURATION_MIN_TOTAL: i128 = -9_223_372_036_854_775_808_999_999_999;

impl Duration {
    /// The span in nanoseconds, as a mathematical integer.
    pub open spec fn spec_total_nanos(self) -> int {
        total_of(self.seconds as int, self.nanos as int)
    }

    /// Whether the fields are in normal form.
    pub open spec fn is_normalized(self) -> bool {
        is_normal(self.seconds as int, self.nanos as int)
    }

    /// The normal duration of `total` nanoseconds, if its seconds fit in 64 bits.
    pub open spec fn spec_from_total_nanos(total: int) -> Option<Duration> {
        if fits_i64(whole_of(total)) {
            Some(Duration { seconds: whole_of(total) as i64, nanos: frac_of(total) as i32 })
        } else {
            None
        }
    }

    /// The normal form of a duration: the same span where it can be
    /// represented, else the nearest normal duration.
    pub open spec fn spec_normalized(self) -> Duration {
        let total = clamp(
            self.spec_total_nanos(),
            DURATION_MIN_TOTAL as int,
            DURATION_MAX_TOTAL as int,
        );
        Duration { seconds: whole_of(total) as i64, nanos: frac_of(total) as i32 }
    }

    /// The total nanoseconds of this duration.
    #[must_use]
    pub fn total_nanos(&self) -> (total: i128)
        ensures
            total == self.spec_total_nanos(),
    {
        widen(self.seconds, self.nanos as i64)
    }

    /// The normal duration of `total` nanoseconds, or `None` when its whole
    /// seconds do not fit in 64 bits.
    #[must_use]
    pub fn from_total_nanos(total: i128) -> (r: Option<Self>)
        ensures
            r == Self::spec_from_total_nanos(total as int),
            r is Some ==> r.unwrap().is_normalized() && r.unwrap().spec_total_nanos() == total,
    {
        let (whole, nanos) = split_total(total);
        match narrow_whole(whole) {
            Some(seconds) => Some(Self { seconds, nanos }),
            None => None,
        }
    }

    /// Brings the fields into normal form, saturating at the least and the
    /// greatest normal duration.
    pub fn normalize(&mut self)
        ensures
            *final(self) == old(self).spec_normalized(),
            final(self).is_normalized(),
            fits_i64(whole_of(old(self).spec_total_nanos())) ==> final(self).spec_total_nanos()
                == old(self).spec_total_nanos(),
    {
        let total = self.total_nanos();
        let limited: i128 = if total < DURATION_MIN_TOTAL {
            DURATION_MIN_TOTAL
        } else if total > DURATION_MAX_TOTAL {
            DURATION_MAX_TOTAL
        } else {
            total
        };
        let (whole, nanos) = split_total(limited);
        self.seconds = whole as i64;
        self.nanos = nanos;
    }

    /// A copy in normal form.
    #[must_use]
    pub fn normalized(&self) -> (r: Self)
        ensures
            r == self.spec_normalized(),
            r.is_normalized(),
    {
        let mut copy = *self;
        copy.normalize();
        copy
    }

    /// A duration from seconds and nanoseconds, brought into normal form.
    #[must_use]
    pub fn new(seconds: i64, nanos: i32) -> (r: Self)
        ensures
            r == (Duration { seconds, nanos }).spec_normalized(),
            r.is_normalized(),
    {
        let mut instance = Self { seconds, nanos };
        instance.normalize();
        instance
    }

    /// Whether the duration is below zero, judged by its fields.
    #[must_use]
    pub fn is_negative(&self) -> (r: bool)
        ensures
            r == (self.seconds < 0 || (self.seconds == 0 && self.nanos < 0)),
            self.is_normalized() ==> r == (self.spec_total_nanos() < 0),
    {
        self.seconds < 0 || (self.seconds == 0 && self.nanos < 0)
    }

    /// Adds a span given as plain seconds and nanoseconds, as other
    /// libraries hand it over; `None` when the seconds of the sum do not fit
    /// in 64 bits.
    pub fn checked_add_raw(&self, rhs_s: i64, rhs_n: i64) -> (r: Option<Self>)
        ensures
            r == Self::spec_from_total_nanos(
                self.spec_total_nanos() + total_of(rhs_s as int, rhs_n as int),
            ),
    {
        Self::from_total_nanos(self.total_nanos() + widen(rhs_s, rhs_n))
    }

    /// Subtracts a span given as plain seconds and nanoseconds; `None` when
    /// the seconds of the difference do not fit in 64 bits.
    pub fn checked_sub_raw(&self, rhs_s: i64, rhs_n: i64) -> (r: Option<Self>)
        ensures
            r == Self::spec_from_total_nanos(
                self.spec_total_nanos() - total_of(rhs_s as int, rhs_n as int),
            ),
    {
        Self::from_total_nanos(self.total_nanos() - widen(rhs_s, rhs_n))
    }

    /// The sum of two durations in normal form, or `None` when its seconds
    /// do not fit in 64 bits.
    #[must_use]
    pub fn checked_add(&self, other: &Self) -> (r: Option<Self>)
        ensures
            r == Self::spec_from_total_nanos(self.spec_total_nanos() + other.spec_total_nanos()),
    {
        self.checked_add_raw(other.seconds, other.nanos as i64)
    }

    /// The difference of two durations in normal form, or `None` when its
    /// seconds do not fit in 64 bits.
    #[must_use]
    pub fn checked_sub(&self, other: &Self) -> (r: Option<Self>)
        ensures
            r == Self::spec_from_total_nanos(self.spec_total_nanos() - other.spec_total_nanos()),
    {
        self.checked_sub_raw(other.seconds, other.nanos as i64)
    }

    /// The duration times `rhs` in normal form, or `None` when its seconds do
    /// not fit in 64 bits.
    #[must_use]
    pub fn checked_mul(&self, rhs: i64) -> (r: Option<Self>)
        ensures
            r == Self::spec_from_total_nanos(self.spec_total_nanos() * rhs),
    {
        let total = self.total_nanos();
        assert(-9_223_372_036_854_775_808 * 1_000_000_000 - 2_147_483_648 <= total
            <= 9_223_372_036_854_775_807 * 1_000_000_000 + 2_147_483_647);
        match total.checked_mul(rhs as i128) {
            Some(product) => Self::from_total_nanos(product),
            None => {
                proof {
                    let p = total as int * rhs as int;
                    assert(p > i128::MAX || p < i128::MIN);
                    assert(!fits_i64(whole_of(p)));
                }
                None
            },
        }
    }

    /// The duration divided by `rhs`, truncated toward zero to whole
    /// nanoseconds; `None` when `rhs` is zero or the seconds of the quotient
    /// do not fit in 64 bits.
    #[must_use]
    pub fn checked_div(&self, rhs: i64) -> (r: Option<Self>)
        ensures
            r == (if rhs == 0 {
                None
            } else {
                Self::spec_from_total_nanos(trunc_div(self.spec_total_nanos(), rhs as int))
            }),
    {
        if rhs == 0 {
            return None;
        }
        let total = self.total_nanos();
        let quotient = crate::arith::div_toward_zero(total, rhs as i128);
        Self::from_total_nanos(quotient)
    }
}

impl Add for Duration {
    type Output = Duration;

    /// The sum of two durations. The sum must be representable; use
    /// [`Duration::checked_add`] where it may not be.
    fn add(self, rhs: Duration) -> (r: Duration) {
        self.checked_add(&rhs).expect("overflow in duration addition")
    }
}

impl AddSpecImpl for Duration {
    open spec fn obeys_add_spec() -> bool {
        true
    }

    open spec fn add_req(self, rhs: Duration) -> bool {
        Duration::spec_from_total_nanos(self.spec_total_nanos() + rhs.spec_total_nanos()) is Some
    }

    open spec fn add_spec(self, rhs: Duration) -> Duration {
        Duration::spec_from_total_nanos(self.spec_total_nanos() + rhs.spec_total_nanos()).unwrap()
    }
}

impl Sub for Duration {
    type Output = Duration;

    /// The difference of two durations. It must be representable; use
    /// [`Duration::checked_sub`] where it may not be.
    fn sub(self, rhs: Duration) -> (r: Duration) {
        self.checked_sub(&rhs).expect("overflow in duration subtraction")
    }
}

impl SubSpecImpl for Duration {
    open spec fn obeys_sub_spec() -> bool {
        true
    }

    open spec fn sub_req(self, rhs: Duration) -> bool {
        Duration::spec_from_total_nanos(self.spec_total_nanos() - rhs.spec_total_nanos()) is Some
    }

    open spec fn sub_spec(self, rhs: Duration) -> Duration {
        Duration::spec_from_total_nanos(self.spec_total_nanos() - rhs.spec_total_nanos()).unwrap()
    }
}

impl Mul<i64> for Duration {
    type Output = Duration;

    /// The duration times a scalar. The product must be representable; use
    /// [`Duration::checked_mul`] where it may not be.
    fn mul(self, rhs: i64) -> (r: Duration) {
        self.checked_mul(rhs).expect("Duration multiplication by i64 overflowed")
    }
}

impl MulSpecImpl<i64> for Duration {
    open spec fn obeys_mul_spec() -> bool {
        true
    }

    open spec fn mul_req(self, rhs: i64) -> bool {
        Duration::spec_from_total_nanos(self.spec_total_nanos() * rhs) is Some
    }

    open spec fn mul_spec(self, rhs: i64) -> Duration {
        Duration::spec_from_total_nanos(self.spec_total_nanos() * rhs).unwrap()
    }
}

impl Mul<i32> for Duration {
    type Output = Duration;

    /// The duration times a 32-bit scalar; see the 64-bit form.
    fn mul(self, rhs: i32) -> (r: Duration) {
        self.checked_mul(rhs as i64).expect("Duration multiplication by i32 overflowed")
    }
}

impl MulSpecImpl<i32> for Duration {
    open spec fn obeys_mul_spec() -> bool {
        true
    }

    open spec fn mul_req(self, rhs: i32) -> bool {
        Duration::spec_from_total_nanos(self.spec_total_nanos() * rhs) is Some
    }

    open spec fn mul_spec(self, rhs: i32) -> Duration {
        Duration::spec_from_total_nanos(self.spec_total_nanos() * rhs).unwrap()
    }
}

impl Div<i64> for Duration {
    type Output = Duration;

    /// The duration divided by a scalar, truncated toward zero. The divisor
    /// must not be zero and the quotient must be representable; use
    /// [`Duration::checked_div`] where that is not known.
    fn div(self, rhs: i64) -> (r: Duration) {
        self.checked_div(rhs).expect("Duration division by i64 overflowed or divided by zero")
    }
}

impl DivSpecImpl<i64> for Duration {
    open spec fn obeys_div_spec() -> bool {
        true
    }

    open spec fn div_req(self, rhs: i64) -> bool {
        rhs != 0 && Duration::spec_from_total_nanos(
            trunc_div(self.spec_total_nanos(), rhs as int),
        ) is Some
    }

    open spec fn div_spec(self, rhs: i64) -> Duration {
        Duration::spec_from_total_nanos(trunc_div(self.spec_total_nanos(), rhs as int)).unwrap()
    }
}

impl Div<i32> for Duration {
    type Output = Duration;

    /// The duration divided by a 32-bit scalar; see the 64-bit form.
    fn div(self, rhs: i32) -> (r: Duration) {
        self.checked_div(rhs as i64).expect("Duration division by i32 overflowed or divided by zero")
    }
}

impl DivSpecImpl<i32> for Duration {
    open spec fn obeys_div_spec() -> bool {
        true
    }

    open spec fn div_req(self, rhs: i32) -> bool {
        rhs != 0 && Duration::spec_from_total_nanos(
            trunc_div(self.spec_total_nanos(), rhs as int),
        ) is Some
    }

    open spec fn div_spec(self, rhs: i32) -> Duration {
        Duration::spec_from_total_nanos(trunc_div(self.spec_total_nanos(), rhs as int)).unwrap()
    }
}

/// Round trip: a normal duration is the one that `from_total_nanos` gives
/// for its own total.
pub proof fn lemma_total_nanos_round_trip(d: Duration)
    requires
        d.is_normalized(),
    ensures
        Duration::spec_from_total_nanos(d.spec_total_nanos()) == Some(d),
{
}

/// What `from_total_nanos` and the checked operations give is in normal
/// form and stands for the total it was made from.
pub proof fn lemma_from_total_is_normal(total: int)
    ensures
        Duration::spec_from_total_nanos(total) matches Some(d) ==> d.is_normalized()
            && d.spec_total_nanos() == total,
        Duration::spec_from_total_nanos(total) is None <==> !fits_i64(whole_of(total)),
{
}

/// Normalizing keeps a normal duration as it is.
pub proof fn lemma_normalized_is_fixed(d: Duration)
    requires
        d.is_normalized(),
    ensures
        d.spec_normalized() == d,
{
}

/// Normalizing does not change the span where the span is representable,
/// so it does not change how a duration compares with any other.
pub proof fn lemma_normalized_keeps_total(d: Duration)
    requires
        fits_i64(whole_of(d.spec_total_nanos())),
    ensures
        d.spec_normalized().spec_total_nanos() == d.spec_total_nanos(),
{
}

impl Duration {
    /// How the duration stands to a span of `total` nanoseconds, such as
    /// the total of a span kept by another library.
    pub fn order_with_total(&self, total: i128) -> (r: Ordering)
        ensures
            r == int_order(self.spec_total_nanos(), crate::arith::wide(total)),
    {
        crate::order::order_wide(self.total_nanos(), total)
    }
}

impl Default for Duration {
    fn default() -> (r: Self)
        ensures
            r == (Duration { seconds: 0, nanos: 0 }),
    {
        Duration { seconds: 0, nanos: 0 }
    }
}

impl PartialOrd for Duration {
    /// Durations are ordered by their total nanoseconds, whether or not
    /// their fields are in normal form.
    fn partial_cmp(&self, other: &Self) -> (r: Option<Ordering>) {
        let a = self.total_nanos();
        let b = other.total_nanos();
        Some(crate::order::order_wide(a, b))
    }
}

impl PartialOrdSpecImpl for Duration {
    open spec fn obeys_partial_cmp_spec() -> bool {
        true
    }

    open spec fn partial_cmp_spec(&self, other: &Self) -> Option<Ordering> {
        Some(int_order(self.spec_total_nanos(), other.spec_total_nanos()))
    }
}

} // verus!
