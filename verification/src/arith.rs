//! Widened fixed-point arithmetic shared by the two-field value types.
//!
//! A value with a whole part `w` and a fractional part `f` (counted in
//! billionths) stands for the total `w * 10^9 + f`. Arithmetic is done on the
//! total in `i128`, and the total is split back by truncation toward zero, so
//! that the fractional part carries the sign of the total.

use vstd::prelude::*;

verus! {

/// Number of fractional sub-units in one whole unit.
pub const NANOS_PER_SECOND: i32 = 1_000_000_000;

/// The base as a mathematical integer.
pub open spec fn base() -> int {
    1_000_000_000
}

/// Quotient of `a` by `b`, rounded toward zero (`b` is not zero).
pub open spec fn trunc_div(a: int, b: int) -> int {
    if a >= 0 && b > 0 {
        a / b
    } else if a >= 0 {
        -(a / (-b))
    } else if b > 0 {
        -((-a) / b)
    } else {
        (-a) / (-b)
    }
}

/// Remainder of `a` by `b` that goes with [`trunc_div`]: it has the sign of `a`.
pub open spec fn trunc_rem(a: int, b: int) -> int {
    a - b * trunc_div(a, b)
}

/// The total that a whole part and a fractional part stand for.
pub open spec fn total_of(whole: int, frac: int) -> int {
    whole * base() + frac
}

/// Whole part of a total: the quotient by the base, truncated toward zero.
pub open spec fn whole_of(total: int) -> int {
    trunc_div(total, base())
}

/// Fractional part of a total: the remainder, with the sign of the total.
pub open spec fn frac_of(total: int) -> int {
    trunc_rem(total, base())
}

/// A pair is normal when the fraction is below the base in magnitude and
/// does not disagree in sign with the whole part.
pub open spec fn is_normal(whole: int, frac: int) -> bool {
    &&& -base() < frac < base()
    &&& (whole > 0 ==> frac >= 0)
    &&& (whole < 0 ==> frac <= 0)
}

/// `x` limited to the closed range from `lo` to `hi`.
pub open spec fn clamp(x: int, lo: int, hi: int) -> int {
    if x < lo {
        lo
    } else if x > hi {
        hi
    } else {
        x
    }
}

/// A 128-bit integer as a mathematical integer.
pub open spec fn wide(x: i128) -> int {
    x as int
}

/// Whether a mathematical integer fits in an `i64`.
pub open spec fn fits_i64(x: int) -> bool {
    i64::MIN <= x <= i64::MAX
}

/// Whether a mathematical integer fits in an `i128`.
pub open spec fn fits_i128(x: int) -> bool {
    i128::MIN <= x <= i128::MAX
}

/// Splitting a total gives a normal pair that stands for the same total.
pub proof fn lemma_split_is_normal(total: int)
    ensures
        is_normal(whole_of(total), frac_of(total)),
        total_of(whole_of(total), frac_of(total)) == total,
{
}

/// A normal pair is the split of its own total: the representation is unique.
pub proof fn lemma_split_of_normal(whole: int, frac: int)
    requires
        is_normal(whole, frac),
    ensures
        whole_of(total_of(whole, frac)) == whole,
        frac_of(total_of(whole, frac)) == frac,
{
}

/// The total of two fields, computed without overflow in `i128`.
pub fn widen(whole: i64, frac: i64) -> (total: i128)
    ensures
        total == total_of(whole as int, frac as int),
{
    (whole as i128) * 1_000_000_000i128 + (frac as i128)
}

/// Splits a total into its whole part and its fractional part.
pub fn split_total(total: i128) -> (parts: (i128, i32))
    ensures
        parts.0 == whole_of(total as int),
        parts.1 == frac_of(total as int),
        is_normal(parts.0 as int, parts.1 as int),
{
    let whole: i128 = total / 1_000_000_000i128;
    let frac: i128 = total % 1_000_000_000i128;
    (whole, frac as i32)
}

/// Narrows a whole part to 64 bits, or reports that it does not fit.
pub fn narrow_whole(whole: i128) -> (r: Option<i64>)
    ensures
        r == (if fits_i64(whole as int) {
            Some(whole as i64)
        } else {
            None
        }),
{
    if whole < -9_223_372_036_854_775_808i128 || whole > 9_223_372_036_854_775_807i128 {
        None
    } else {
        Some(whole as i64)
    }
}

/// Magnitude of a 64-bit integer; the most negative value has magnitude 2^63.
pub fn magnitude(x: i64) -> (r: u64)
    ensures
        r == abs_int(x as int),
{
    if x >= 0 {
        x as u64
    } else if x == i64::MIN {
        9_223_372_036_854_775_808u64
    } else {
        (-x) as u64
    }
}

/// Absolute value of a mathematical integer.
pub open spec fn abs_int(x: int) -> int {
    if x < 0 {
        -x
    } else {
        x
    }
}

/// Quotient of two 128-bit integers, rounded toward zero.
pub(crate) fn div_toward_zero(a: i128, b: i128) -> (q: i128)
    requires
        b != 0,
        a > i128::MIN,
    ensures
        q == trunc_div(a as int, b as int),
{
    proof {
        lemma_trunc_div_bound(a as int, b as int);
    }
    match a.checked_div(b) {
        Some(q) => q,
        None => a,
    }
}

/// Dividing does not raise the magnitude.
pub proof fn lemma_trunc_div_bound(a: int, b: int)
    requires
        b != 0,
    ensures
        abs_int(trunc_div(a, b)) <= abs_int(a),
        a >= 0 && b > 0 ==> trunc_div(a, b) == a / b,
        a == 0 ==> trunc_div(a, b) == 0,
{
    let x = abs_int(a);
    let d = abs_int(b);
    vstd::arithmetic::div_mod::lemma_div_pos_is_pos(x, d);
    vstd::arithmetic::div_mod::lemma_div_is_ordered_by_denominator(x, 1, d);
    vstd::arithmetic::div_mod::lemma_div_basics(x);
}

/// Ten to the power `k`.
pub open spec fn pow10(k: nat) -> nat
    decreases k,
{
    if k == 0 {
        1
    } else {
        10 * pow10((k - 1) as nat)
    }
}

/// Ten to the power `k`, for `k` up to nine.
pub(crate) fn ten_to(k: u32) -> (r: i128)
    requires
        k <= 9,
    ensures
        r == pow10(k as nat),
        1 <= r <= 1_000_000_000,
{
    proof {
        reveal_with_fuel(pow10, 11);
    }
    match k {
        0 => 1,
        1 => 10,
        2 => 100,
        3 => 1_000,
        4 => 10_000,
        5 => 100_000,
        6 => 1_000_000,
        7 => 10_000_000,
        8 => 100_000_000,
        _ => 1_000_000_000,
    }
}

/// The powers of ten up to the ninth.
pub proof fn lemma_pow10_values()
    ensures
        pow10(0) == 1,
        pow10(1) == 10,
        pow10(2) == 100,
        pow10(3) == 1_000,
        pow10(4) == 10_000,
        pow10(5) == 100_000,
        pow10(6) == 1_000_000,
        pow10(7) == 10_000_000,
        pow10(8) == 100_000_000,
        pow10(9) == 1_000_000_000,
{
    reveal_with_fuel(pow10, 11);
}

/// A power of ten is at most any later power of ten.
pub proof fn lemma_pow10_increases(a: nat, b: nat)
    requires
        a <= b,
    ensures
        1 <= pow10(a) <= pow10(b),
    decreases b,
{
    if a < b {
        lemma_pow10_increases(a, (b - 1) as nat);
    } else if a > 0 {
        lemma_pow10_increases((a - 1) as nat, (a - 1) as nat);
    }
}

} // verus!
