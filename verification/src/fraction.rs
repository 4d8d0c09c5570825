//! An exact rational number, kept in lowest terms over a positive
//! denominator.

use core::cmp::Ordering;
use vstd::arithmetic::div_mod::{
    lemma_fundamental_div_mod, lemma_mod_multiples_basic, lemma_small_mod, lemma_truncate_middle,
};
use vstd::prelude::*;
use vstd::std_specs::cmp::PartialOrdSpecImpl;

use crate::arith::{abs_int, div_toward_zero, fits_i64, lemma_trunc_div_bound, magnitude, trunc_div};
use crate::order::int_order;
use crate::text::{push_signed_decimal, signed_decimal};

verus! {

/// A rational number `numerator / denominator`. A value made by
/// [`Fraction::new`] or by the checked operations has a positive denominator
/// and shares no factor between its two fields.
#[derive(Clone, Copy, Debug, PartialEq, Eq, Structural, Hash)]
pub struct Fraction {
    pub numerator: i64,
    pub denominator: i64,
}

/// Why an operation on a [`Fraction`] failed.
#[derive(Clone, Copy, Debug, PartialEq, Eq, Structural)]
#[non_exhaustive]
pub enum FractionError {
    /// A denominator is zero.
    ZeroDenominator,
    /// The result does not fit in the 64-bit fields.
    Overflow,
    /// The divisor is zero, so the quotient is undefined.
    Undefined,
}

/// Greatest common divisor of two naturals, by Euclid's rule; the divisor
/// of zero and zero is zero.
pub open spec fn spec_gcd(a: nat, b: nat) -> nat
    decreases b,
{
    if b == 0 {
        a
    } else {
        spec_gcd(b, a % b)
    }
}

/// Greatest common divisor of the magnitudes of two integers.
pub open spec fn gcd_of(a: int, b: int) -> nat {
    spec_gcd(abs_int(a) as nat, abs_int(b) as nat)
}

/// The signed product `(a / gcd) * b`: a common multiple of `a` and `b`
/// of least magnitude (neither is zero).
pub open spec fn spec_lcm(a: int, b: int) -> int {
    trunc_div(a, gcd_of(a, b) as int) * b
}

/// Whether the pair can be brought to a positive denominator within 64 bits.
pub open spec fn reducible(numerator: int, denominator: int) -> bool {
    &&& denominator != 0
    &&& denominator != i64::MIN
    &&& !(denominator < 0 && numerator == i64::MIN)
}

/// The pair with the sign moved to the numerator and both fields divided by
/// their greatest common divisor.
pub open spec fn lowest_terms(numerator: int, denominator: int) -> (int, int) {
    let n = if denominator < 0 {
        -numerator
    } else {
        numerator
    };
    let d = abs_int(denominator);
    let g = gcd_of(n, d) as int;
    (trunc_div(n, g), d / g)
}

/// What [`Fraction::new`] returns for a numerator and a denominator.
pub open spec fn spec_new(numerator: int, denominator: int) -> Result<Fraction, FractionError> {
    if denominator == 0 {
        Err(FractionError::ZeroDenominator)
    } else if !reducible(numerator, denominator) {
        Err(FractionError::Overflow)
    } else {
        Ok(
            Fraction {
                numerator: lowest_terms(numerator, denominator).0 as i64,
                denominator: lowest_terms(numerator, denominator).1 as i64,
            },
        )
    }
}

/// What narrowing a widened numerator and denominator to a fraction gives.
pub open spec fn spec_narrowed(numerator: int, denominator: int) -> Result<
    Fraction,
    FractionError,
> {
    if !fits_i64(numerator) || !fits_i64(denominator) {
        Err(FractionError::Overflow)
    } else {
        spec_new(numerator, denominator)
    }
}

impl Fraction {
    /// Whether the fraction has a positive denominator and is in lowest terms.
    pub open spec fn is_reduced(self) -> bool {
        self.denominator > 0 && gcd_of(self.numerator as int, self.denominator as int) == 1
    }

    /// The fraction in lowest terms; a fraction whose sign cannot be moved
    /// within 64 bits, or whose denominator is zero, stays as it is.
    pub open spec fn spec_reduced(self) -> Fraction {
        if reducible(self.numerator as int, self.denominator as int) {
            Fraction {
                numerator: lowest_terms(self.numerator as int, self.denominator as int).0 as i64,
                denominator: lowest_terms(self.numerator as int, self.denominator as int).1 as i64,
            }
        } else {
            self
        }
    }

    /// The sum of two fractions over the least common denominator.
    pub open spec fn spec_checked_add(self, other: Fraction) -> Result<Fraction, FractionError> {
        if self.denominator == 0 || other.denominator == 0 {
            Err(FractionError::ZeroDenominator)
        } else {
            let g = gcd_of(self.denominator as int, other.denominator as int) as int;
            spec_narrowed(
                self.numerator * trunc_div(other.denominator as int, g) + other.numerator
                    * trunc_div(self.denominator as int, g),
                spec_lcm(self.denominator as int, other.denominator as int),
            )
        }
    }

    /// The difference of two fractions over the least common denominator.
    pub open spec fn spec_checked_sub(self, other: Fraction) -> Result<Fraction, FractionError> {
        if self.denominator == 0 || other.denominator == 0 {
            Err(FractionError::ZeroDenominator)
        } else {
            let g = gcd_of(self.denominator as int, other.denominator as int) as int;
            spec_narrowed(
                self.numerator * trunc_div(other.denominator as int, g) - other.numerator
                    * trunc_div(self.denominator as int, g),
                spec_lcm(self.denominator as int, other.denominator as int),
            )
        }
    }

    /// The product of two fractions.
    pub open spec fn spec_checked_mul(self, other: Fraction) -> Result<Fraction, FractionError> {
        spec_narrowed(self.numerator * other.numerator, self.denominator * other.denominator)
    }

    /// The quotient of two fractions; undefined for a divisor of zero.
    pub open spec fn spec_checked_div(self, other: Fraction) -> Result<Fraction, FractionError> {
        if other.numerator == 0 {
            Err(FractionError::Undefined)
        } else {
            spec_narrowed(self.numerator * other.denominator, self.denominator * other.numerator)
        }
    }

    /// The text `numerator/denominator`.
    pub open spec fn text(self) -> Seq<char> {
        signed_decimal(self.numerator as int) + seq!['/'] + signed_decimal(self.denominator as int)
    }

    /// Greatest common divisor of the magnitudes of `a` and `b`. The result
    /// is unsigned because the divisor of the most negative value and zero
    /// is 2^63.
    #[must_use]
    pub fn gcd(a: i64, b: i64) -> (r: u64)
        ensures
            r == gcd_of(a as int, b as int),
    {
        let mut ua: u64 = magnitude(a);
        let mut ub: u64 = magnitude(b);
        while ub != 0
            invariant
                spec_gcd(ua as nat, ub as nat) == gcd_of(a as int, b as int),
            decreases ub,
        {
            let rest = ua % ub;
            ua = ub;
            ub = rest;
        }
        ua
    }

    /// A common multiple of `a` and `b` of least magnitude, with the sign
    /// of their product; `ZeroDenominator` when either is zero.
    pub fn lcm(a: i64, b: i64) -> (r: Result<i128, FractionError>)
        ensures
            r == (if a == 0 || b == 0 {
                Err::<i128, FractionError>(FractionError::ZeroDenominator)
            } else {
                Ok::<i128, FractionError>(spec_lcm(a as int, b as int) as i128)
            }),
            r is Ok ==> r->Ok_0 == spec_lcm(a as int, b as int),
    {
        if a == 0 || b == 0 {
            return Err(FractionError::ZeroDenominator);
        }
        let common_divisor = Self::gcd(a, b);
        proof {
            lemma_gcd_positive(abs_int(a as int) as nat, abs_int(b as int) as nat);
            lemma_trunc_div_bound(a as int, common_divisor as int);
        }
        let term = div_toward_zero(a as i128, common_divisor as i128);
        proof {
            lemma_product_bound(term as int, b as int);
        }
        Ok(term * (b as i128))
    }

    /// The fraction in lowest terms over a positive denominator, or the
    /// reason why there is none.
    pub fn new(numerator: i64, denominator: i64) -> (r: Result<Self, FractionError>)
        ensures
            r == spec_new(numerator as int, denominator as int),
            r matches Ok(f) ==> f.is_reduced(),
    {
        if denominator == 0 {
            return Err(FractionError::ZeroDenominator);
        }
        if denominator == i64::MIN {
            return Err(FractionError::Overflow);
        }
        if denominator < 0 && numerator == i64::MIN {
            return Err(FractionError::Overflow);
        }
        let mut f = Self { numerator, denominator };
        f.reduce();
        Ok(f)
    }

    /// Brings the fraction to lowest terms over a positive denominator. A
    /// fraction whose denominator is zero, or whose sign cannot be moved
    /// within 64 bits, is left as it is.
    pub fn reduce(&mut self)
        ensures
            *final(self) == old(self).spec_reduced(),
            reducible(old(self).numerator as int, old(self).denominator as int)
                ==> final(self).is_reduced(),
    {
        if self.denominator == 0 {
            return ;
        }
        if self.denominator == i64::MIN {
            return ;
        }
        if self.denominator < 0 && self.numerator == i64::MIN {
            return ;
        }
        let mut n = self.numerator;
        let mut d = self.denominator;
        if d < 0 {
            n = -n;
            d = -d;
        }
        let common_divisor = Self::gcd(n, d);
        proof {
            lemma_lowest_terms(n as int, d as int);
        }
        let cd = common_divisor as i64;
        self.numerator = div_toward_zero(n as i128, cd as i128) as i64;
        self.denominator = d / cd;
    }

    /// A copy in lowest terms.
    #[must_use]
    pub fn reduced(self) -> (r: Self)
        ensures
            r == self.spec_reduced(),
    {
        let mut copy = self;
        copy.reduce();
        copy
    }

    /// Narrows a widened numerator and denominator and reduces them.
    fn narrowed(numerator: i128, denominator: i128) -> (r: Result<Self, FractionError>)
        ensures
            r == spec_narrowed(numerator as int, denominator as int),
    {
        let low: i128 = -9_223_372_036_854_775_808;
        let high: i128 = 9_223_372_036_854_775_807;
        if numerator < low || numerator > high || denominator < low || denominator > high {
            return Err(FractionError::Overflow);
        }
        Self::new(numerator as i64, denominator as i64)
    }

    /// The factors by which the numerators of `self` and `other` are
    /// scaled to their least common denominator, and that denominator.
    fn common_terms(self, other: Self) -> (r: (i128, i128, i128))
        requires
            self.denominator != 0,
            other.denominator != 0,
        ensures
            r.0 == self.numerator * trunc_div(
                other.denominator as int,
                gcd_of(self.denominator as int, other.denominator as int) as int,
            ),
            r.1 == other.numerator * trunc_div(
                self.denominator as int,
                gcd_of(self.denominator as int, other.denominator as int) as int,
            ),
            r.2 == spec_lcm(self.denominator as int, other.denominator as int),
            -0x4000_0000_0000_0000_0000_0000_0000_0000 <= r.0
                <= 0x4000_0000_0000_0000_0000_0000_0000_0000,
            -0x4000_0000_0000_0000_0000_0000_0000_0000 <= r.1
                <= 0x4000_0000_0000_0000_0000_0000_0000_0000,
    {
        let g = Self::gcd(self.denominator, other.denominator);
        proof {
            lemma_gcd_positive(
                abs_int(self.denominator as int) as nat,
                abs_int(other.denominator as int) as nat,
            );
            lemma_trunc_div_bound(self.denominator as int, g as int);
            lemma_trunc_div_bound(other.denominator as int, g as int);
        }
        let factor_self = div_toward_zero(other.denominator as i128, g as i128);
        let factor_other = div_toward_zero(self.denominator as i128, g as i128);
        proof {
            lemma_product_bound(self.numerator as int, factor_self as int);
            lemma_product_bound(other.numerator as int, factor_other as int);
            lemma_product_bound(factor_other as int, other.denominator as int);
        }
        (
            (self.numerator as i128) * factor_self,
            (other.numerator as i128) * factor_other,
            factor_other * (other.denominator as i128),
        )
    }

    /// The sum of two fractions in lowest terms. `ZeroDenominator` when a
    /// denominator is zero, `Overflow` when the sum or the common
    /// denominator does not fit.
    pub fn checked_add(self, other: Self) -> (r: Result<Self, FractionError>)
        ensures
            r == self.spec_checked_add(other),
    {
        if self.denominator == 0 || other.denominator == 0 {
            return Err(FractionError::ZeroDenominator);
        }
        let (left, right, common) = self.common_terms(other);
        match left.checked_add(right) {
            Some(numerator) => Self::narrowed(numerator, common),
            None => Err(FractionError::Overflow),
        }
    }

    /// The difference of two fractions in lowest terms. `ZeroDenominator`
    /// when a denominator is zero, `Overflow` when the difference or the
    /// common denominator does not fit.
    pub fn checked_sub(self, other: Self) -> (r: Result<Self, FractionError>)
        ensures
            r == self.spec_checked_sub(other),
    {
        if self.denominator == 0 || other.denominator == 0 {
            return Err(FractionError::ZeroDenominator);
        }
        let (left, right, common) = self.common_terms(other);
        match left.checked_sub(right) {
            Some(numerator) => Self::narrowed(numerator, common),
            None => Err(FractionError::Overflow),
        }
    }

    /// The product of two fractions in lowest terms.
    pub fn checked_mul(self, other: Self) -> (r: Result<Self, FractionError>)
        ensures
            r == self.spec_checked_mul(other),
    {
        proof {
            lemma_product_bound(self.numerator as int, other.numerator as int);
            lemma_product_bound(self.denominator as int, other.denominator as int);
        }
        let numerator = (self.numerator as i128) * (other.numerator as i128);
        let denominator = (self.denominator as i128) * (other.denominator as i128);
        Self::narrowed(numerator, denominator)
    }

    /// The quotient of two fractions in lowest terms; `Undefined` when the
    /// divisor is zero.
    pub fn checked_div(self, other: Self) -> (r: Result<Self, FractionError>)
        ensures
            r == self.spec_checked_div(other),
    {
        if other.numerator == 0 {
            return Err(FractionError::Undefined);
        }
        proof {
            lemma_product_bound(self.numerator as int, other.denominator as int);
            lemma_product_bound(self.denominator as int, other.numerator as int);
        }
        let numerator = (self.numerator as i128) * (other.denominator as i128);
        let denominator = (self.denominator as i128) * (other.numerator as i128);
        Self::narrowed(numerator, denominator)
    }

    /// The two cross products by which fractions over positive
    /// denominators are compared.
    pub fn cross_products(&self, other: &Self) -> (r: (i128, i128))
        ensures
            r.0 == self.numerator * other.denominator,
            r.1 == other.numerator * self.denominator,
    {
        proof {
            lemma_product_bound(self.numerator as int, other.denominator as int);
            lemma_product_bound(other.numerator as int, self.denominator as int);
        }
        (
            (self.numerator as i128) * (other.denominator as i128),
            (other.numerator as i128) * (self.denominator as i128),
        )
    }

    /// The numerator and the denominator, for a division outside exact
    /// arithmetic; `ZeroDenominator` when there is nothing to divide by.
    pub fn to_ratio(self) -> (r: Result<(i64, i64), FractionError>)
        ensures
            r == (if self.denominator == 0 {
                Err::<(i64, i64), FractionError>(FractionError::ZeroDenominator)
            } else {
                Ok::<(i64, i64), FractionError>((self.numerator, self.denominator))
            }),
    {
        if self.denominator == 0 {
            return Err(FractionError::ZeroDenominator);
        }
        Ok((self.numerator, self.denominator))
    }

    /// The fraction as text, `numerator/denominator`.
    #[must_use]
    pub fn to_string(&self) -> (r: String)
        ensures
            r@ == self.text(),
    {
        let mut out = String::new();
        push_signed_decimal(&mut out, self.numerator as i128);
        out.push('/');
        push_signed_decimal(&mut out, self.denominator as i128);
        assert(out@ =~= self.text());
        out
    }
}

impl PartialOrd for Fraction {
    /// Fractions over positive denominators are ordered by value; a
    /// fraction whose denominator is not positive compares with nothing.
    fn partial_cmp(&self, other: &Self) -> (r: Option<Ordering>) {
        if self.denominator <= 0 || other.denominator <= 0 {
            return None;
        }
        let (left, right) = self.cross_products(other);
        Some(crate::order::order_wide(left, right))
    }
}

impl PartialOrdSpecImpl for Fraction {
    open spec fn obeys_partial_cmp_spec() -> bool {
        true
    }

    open spec fn partial_cmp_spec(&self, other: &Self) -> Option<Ordering> {
        if self.denominator <= 0 || other.denominator <= 0 {
            None
        } else {
            Some(
                int_order(
                    self.numerator * other.denominator,
                    other.numerator * self.denominator,
                ),
            )
        }
    }
}

/// Every fraction that [`Fraction::new`] and the checked operations give has
/// a positive denominator and no factor in common between its fields.
pub proof fn lemma_new_is_reduced(numerator: int, denominator: int)
    requires
        fits_i64(numerator),
        fits_i64(denominator),
    ensures
        spec_new(numerator, denominator) matches Ok(f) ==> f.is_reduced(),
        spec_narrowed(numerator, denominator) matches Ok(f) ==> f.is_reduced(),
{
    if denominator != 0 && reducible(numerator, denominator) {
        let n = if denominator < 0 {
            -numerator
        } else {
            numerator
        };
        lemma_lowest_terms(n, abs_int(denominator));
    }
}

/// The product of two 64-bit magnitudes stays within 2^126.
pub proof fn lemma_product_bound(x: int, y: int)
    requires
        -0x8000_0000_0000_0000 <= x <= 0x8000_0000_0000_0000,
        -0x8000_0000_0000_0000 <= y <= 0x8000_0000_0000_0000,
    ensures
        -0x4000_0000_0000_0000_0000_0000_0000_0000 <= x * y
            <= 0x4000_0000_0000_0000_0000_0000_0000_0000,
{
    assert(-0x4000_0000_0000_0000_0000_0000_0000_0000 <= x * y
        <= 0x4000_0000_0000_0000_0000_0000_0000_0000) by (nonlinear_arith)
        requires
            -0x8000_0000_0000_0000 <= x <= 0x8000_0000_0000_0000,
            -0x8000_0000_0000_0000 <= y <= 0x8000_0000_0000_0000,
    ;
}

/// The divisor of two numbers that are not both zero is positive.
pub proof fn lemma_gcd_positive(a: nat, b: nat)
    requires
        a > 0 || b > 0,
    ensures
        spec_gcd(a, b) > 0,
    decreases b,
{
    if b != 0 {
        lemma_gcd_positive(b, a % b);
    }
}

/// The divisor divides both numbers.
pub proof fn lemma_gcd_divides(a: nat, b: nat)
    requires
        a > 0 || b > 0,
    ensures
        a % spec_gcd(a, b) == 0,
        b % spec_gcd(a, b) == 0,
    decreases b,
{
    let g = spec_gcd(a, b);
    lemma_gcd_positive(a, b);
    if b == 0 {
        lemma_mod_multiples_basic(1, a as int);
        lemma_small_mod(0, a);
    } else {
        lemma_gcd_divides(b, a % b);
        let r = a % b;
        lemma_fundamental_div_mod(a as int, b as int);
        lemma_fundamental_div_mod(b as int, g as int);
        lemma_fundamental_div_mod(r as int, g as int);
        let q = a as int / b as int;
        let bq = b as int / g as int;
        let rq = r as int / g as int;
        assert(a == (bq * q + rq) * g) by (nonlinear_arith)
            requires
                a == b * q + r,
                b == g * bq,
                r == g * rq,
        ;
        lemma_mod_multiples_basic(bq * q + rq, g as int);
    }
}

/// A common factor can be taken out of the divisor.
pub proof fn lemma_gcd_scales(k: nat, a: nat, b: nat)
    requires
        k > 0,
    ensures
        spec_gcd(k * a, k * b) == k * spec_gcd(a, b),
    decreases b,
{
    if b == 0 {
        assert(k * b == 0) by (nonlinear_arith)
            requires
                b == 0,
        ;
    } else {
        assert(k * b > 0) by (nonlinear_arith)
            requires
                k > 0,
                b > 0,
        ;
        lemma_truncate_middle(a as int, k as int, b as int);
        assert((k * a) % (k * b) == k * (a % b));
        lemma_gcd_scales(k, b, a % b);
    }
}

/// Dividing a numerator and a positive denominator by their divisor is
/// exact, stays within their magnitudes and leaves no common factor.
pub proof fn lemma_lowest_terms(n: int, d: int)
    requires
        d > 0,
    ensures
        gcd_of(n, d) > 0,
        gcd_of(n, d) <= d,
        trunc_div(n, gcd_of(n, d) as int) * gcd_of(n, d) == n,
        (d / (gcd_of(n, d) as int)) * gcd_of(n, d) == d,
        d / (gcd_of(n, d) as int) > 0,
        abs_int(trunc_div(n, gcd_of(n, d) as int)) <= abs_int(n),
        gcd_of(trunc_div(n, gcd_of(n, d) as int), d / (gcd_of(n, d) as int)) == 1,
{
    let a = abs_int(n) as nat;
    let b = d as nat;
    let g = spec_gcd(a, b);
    lemma_gcd_positive(a, b);
    lemma_gcd_divides(a, b);
    lemma_fundamental_div_mod(a as int, g as int);
    lemma_fundamental_div_mod(b as int, g as int);
    lemma_trunc_div_bound(n, g as int);
    let qa = (a as int / g as int) as nat;
    let qb = (b as int / g as int) as nat;
    if g > b {
        lemma_small_mod(b, g);
    }
    assert(qb > 0) by (nonlinear_arith)
        requires
            b == g * qb,
            b > 0,
            g > 0,
    ;
    assert(qa >= 0 && a == g * qa);
    assert(0 <= a as int / g as int) by (nonlinear_arith)
        requires
            a == g * (a as int / g as int),
            g > 0,
            a >= 0,
    ;
    lemma_gcd_scales(g, qa, qb);
    assert(g * spec_gcd(qa, qb) == g);
    assert(spec_gcd(qa, qb) == 1) by (nonlinear_arith)
        requires
            g * spec_gcd(qa, qb) == g,
            g > 0,
    ;
    assert(abs_int(trunc_div(n, g as int)) == qa);
    assert(trunc_div(n, g as int) * g == n) by (nonlinear_arith)
        requires
            a == g * qa,
            a == abs_int(n),
            abs_int(trunc_div(n, g as int)) == qa,
            n >= 0 ==> trunc_div(n, g as int) >= 0,
            n < 0 ==> trunc_div(n, g as int) <= 0,
    ;
    assert((d / (g as int)) * g == d) by (nonlinear_arith)
        requires
            b == g * qb,
            qb == d / (g as int),
            b == d,
    ;
}

/// Bringing a fraction to lowest terms keeps its value: the cross products
/// with the pair it was made from agree.
pub proof fn lemma_lowest_terms_keeps_value(numerator: int, denominator: int)
    requires
        denominator != 0,
    ensures
        lowest_terms(numerator, denominator).0 * denominator == numerator * lowest_terms(
            numerator,
            denominator,
        ).1,
        lowest_terms(numerator, denominator).1 > 0,
{
    let n = if denominator < 0 {
        -numerator
    } else {
        numerator
    };
    let d = abs_int(denominator);
    lemma_lowest_terms(n, d);
    let g = gcd_of(n, d) as int;
    let rn = trunc_div(n, g);
    let rd = d / g;
    assert(rn * d == n * rd) by (nonlinear_arith)
        requires
            rn * g == n,
            rd * g == d,
    ;
    assert(rn * denominator == numerator * rd) by (nonlinear_arith)
        requires
            rn * d == n * rd,
            (denominator < 0 && n == -numerator && d == -denominator) || (denominator > 0 && n
                == numerator && d == denominator),
    ;
}

} // verus!
