//! An amount of money in a named currency, kept as whole units and
//! billionths of a unit.
//!
//! The methods are conveniences and make no claim of fitness for financial
//! use. Multiplication and division by floating-point factors are imprecise
//! by nature and are not part of this module.

use core::cmp::Ordering;
use vstd::prelude::*;
use vstd::std_specs::cmp::PartialOrdSpecImpl;
use vstd::string::StringExecFns;

use crate::arith::{
    abs_int, div_toward_zero, pow10, ten_to, fits_i64, frac_of, is_normal, narrow_whole, split_total, total_of,
    trunc_div, whole_of, widen,
};
use crate::order::int_order;
use crate::text::{decimal, owned, push_decimal, push_zero_padded, str_equal, zero_padded};

verus! {

/// An amount of money: `units` whole units and `nanos` billionths of a unit
/// of the currency named by `currency_code`.
#[derive(Clone, Debug, PartialEq, Eq)]
pub struct Money {
    pub currency_code: String,
    pub units: i64,
    pub nanos: i32,
}

/// Why an operation on [`Money`] failed.
#[derive(Clone, Debug, PartialEq, Eq)]
#[non_exhaustive]
pub enum MoneyError {
    /// The two operands are in different currencies.
    CurrencyMismatch { expected: String, found: String },
    /// The result cannot be represented, or the divisor is zero.
    OutOfRange,
}

/// Mathematical model of a [`Money`] value.
pub struct MoneyModel {
    pub currency_code: Seq<char>,
    pub units: int,
    pub nanos: int,
}

/// Mathematical model of a [`MoneyError`].
pub enum MoneyErrorModel {
    CurrencyMismatch { expected: Seq<char>, found: Seq<char> },
    OutOfRange,
}

impl View for Money {
    type V = MoneyModel;

    open spec fn view(&self) -> MoneyModel {
        MoneyModel {
            currency_code: self.currency_code@,
            units: self.units as int,
            nanos: self.nanos as int,
        }
    }
}

impl View for MoneyError {
    type V = MoneyErrorModel;

    open spec fn view(&self) -> MoneyErrorModel {
        match self {
            MoneyError::CurrencyMismatch { expected, found } => MoneyErrorModel::CurrencyMismatch {
                expected: expected@,
                found: found@,
            },
            MoneyError::OutOfRange => MoneyErrorModel::OutOfRange,
        }
    }
}

/// The views of both sides of a result.
pub open spec fn outcome(r: Result<Money, MoneyError>) -> Result<MoneyModel, MoneyErrorModel> {
    match r {
        Ok(m) => Ok(m@),
        Err(e) => Err(e@),
    }
}

impl MoneyModel {
    /// The amount in billionths of a unit.
    pub open spec fn total_nanos(self) -> int {
        total_of(self.units, self.nanos)
    }

    /// Whether the fields are in normal form and within the stored widths.
    pub open spec fn is_normalized(self) -> bool {
        fits_i64(self.units) && is_normal(self.units, self.nanos)
    }

    /// The normal amount of `total` billionths in the given currency, if
    /// its whole units fit in 64 bits.
    pub open spec fn from_total(currency_code: Seq<char>, total: int) -> Result<
        MoneyModel,
        MoneyErrorModel,
    > {
        if fits_i64(whole_of(total)) {
            Ok(MoneyModel { currency_code, units: whole_of(total), nanos: frac_of(total) })
        } else {
            Err(MoneyErrorModel::OutOfRange)
        }
    }

    /// What combining two amounts gives, where `combined` is the total of
    /// the result if the currencies agree.
    pub open spec fn combine(self, other: MoneyModel, combined: int) -> Result<
        MoneyModel,
        MoneyErrorModel,
    > {
        if self.currency_code != other.currency_code {
            Err(
                MoneyErrorModel::CurrencyMismatch {
                    expected: self.currency_code,
                    found: other.currency_code,
                },
            )
        } else {
            Self::from_total(self.currency_code, combined)
        }
    }

    /// The number of decimal places shown for a request of `decimal_places`.
    pub open spec fn shown_places(decimal_places: nat) -> nat {
        if decimal_places > 9 {
            9
        } else {
            decimal_places
        }
    }

    /// The fraction digits shown at `places` places (at most nine), as a
    /// number: the fraction cut to that many digits and, where digits were
    /// cut, raised by one if the cut part is half a step or more. It may
    /// reach `pow10(places)`, which then carries into the units.
    pub open spec fn rounded_fraction(self, places: nat) -> nat {
        let magnitude = abs_int(frac_of(self.total_nanos())) as nat;
        let step = pow10((9 - places) as nat);
        if step > 1 && magnitude % step >= step / 2 {
            magnitude / step + 1
        } else {
            magnitude / step
        }
    }

    /// The text of the amount with a currency symbol and `decimal_places`
    /// places (at most nine): a minus sign if the amount is below zero,
    /// the symbol, the whole units, and, for one place or more, a point and
    /// the rounded fraction. With no places the fraction is dropped.
    pub open spec fn formatted(self, symbol: Seq<char>, decimal_places: nat) -> Seq<char> {
        let places = Self::shown_places(decimal_places);
        let total = self.total_nanos();
        let whole = abs_int(whole_of(total)) as nat;
        let sign = if total < 0 {
            seq!['-']
        } else {
            Seq::<char>::empty()
        };
        if places == 0 {
            sign + symbol + decimal(whole)
        } else if self.rounded_fraction(places) >= pow10(places) {
            sign + symbol + decimal(whole + 1) + seq!['.'] + zero_padded(0, places)
        } else {
            sign + symbol + decimal(whole) + seq!['.'] + zero_padded(
                self.rounded_fraction(places),
                places,
            )
        }
    }
}

/// Units and nanos in normal form, or `OutOfRange` when the whole units do
/// not fit in 64 bits.
pub fn normalize_money_fields_checked(units: i64, nanos: i32) -> (r: Result<(i64, i32), MoneyError>)
    ensures
        fits_i64(whole_of(total_of(units as int, nanos as int))) ==> r == Ok::<
            (i64, i32),
            MoneyError,
        >(
            (
                whole_of(total_of(units as int, nanos as int)) as i64,
                frac_of(total_of(units as int, nanos as int)) as i32,
            ),
        ),
        !fits_i64(whole_of(total_of(units as int, nanos as int))) ==> r == Err::<
            (i64, i32),
            MoneyError,
        >(MoneyError::OutOfRange),
{
    fields_from_total_nanos(widen(units, nanos as i64))
}

/// The total split into units and nanos, or `OutOfRange` when the whole
/// units do not fit in 64 bits.
pub fn fields_from_total_nanos(total: i128) -> (r: Result<(i64, i32), MoneyError>)
    ensures
        fits_i64(whole_of(total as int)) ==> r == Ok::<(i64, i32), MoneyError>(
            (whole_of(total as int) as i64, frac_of(total as int) as i32),
        ),
        !fits_i64(whole_of(total as int)) ==> r == Err::<(i64, i32), MoneyError>(
            MoneyError::OutOfRange,
        ),
{
    let (whole, nanos) = split_total(total);
    match narrow_whole(whole) {
        Some(units) => Ok((units, nanos)),
        None => Err(MoneyError::OutOfRange),
    }
}

impl Money {
    /// The total amount in billionths of a unit.
    #[must_use]
    pub fn total_nanos(&self) -> (total: i128)
        ensures
            total == self@.total_nanos(),
    {
        widen(self.units, self.nanos as i64)
    }

    /// The normal amount of `total` billionths in the given currency, or
    /// `OutOfRange` when its whole units do not fit in 64 bits.
    pub fn from_total_nanos(currency: &str, total: i128) -> (r: Result<Self, MoneyError>)
        ensures
            outcome(r) == MoneyModel::from_total(currency@, total as int),
    {
        match fields_from_total_nanos(total) {
            Ok((units, nanos)) => Ok(Self { currency_code: owned(currency), units, nanos }),
            Err(e) => Err(e),
        }
    }

    /// The amount as text, with `symbol` and `decimal_places` places (at
    /// most nine), rounded half up where digits are cut.
    #[must_use]
    pub fn to_formatted_string(&self, symbol: &str, decimal_places: u32) -> (r: String)
        ensures
            r@ == self@.formatted(symbol@, decimal_places as nat),
    {
        let places: u32 = if decimal_places > 9 {
            9
        } else {
            decimal_places
        };
        let total = self.total_nanos();
        let (whole, nanos) = split_total(total);
        let whole_abs: i128 = if whole < 0 {
            -whole
        } else {
            whole
        };
        let nanos_abs: i128 = if nanos < 0 {
            -(nanos as i128)
        } else {
            nanos as i128
        };
        let mut rounded: i128 = 0;
        let mut carry: i128 = 0;
        if places > 0 {
            let display = ten_to(places);
            let step = ten_to(9 - places);
            let remainder = nanos_abs % step;
            rounded = nanos_abs / step;
            if step > 1 && remainder >= step / 2 {
                rounded = rounded + 1;
            }
            if rounded >= display {
                carry = 1;
                rounded = 0;
            }
        }
        let mut out = String::new();
        if total < 0 {
            out.push('-');
        }
        out.append(symbol);
        push_decimal(&mut out, (whole_abs + carry) as u128);
        if places > 0 {
            out.push('.');
            push_zero_padded(&mut out, rounded as u128, places as usize);
        }
        proof {
            assert(out@ =~= self@.formatted(symbol@, decimal_places as nat));
        }
        out
    }

    /// The same amount with units and nanos in normal form, or
    /// `OutOfRange` when the whole units do not fit in 64 bits.
    pub fn normalize(self) -> (r: Result<Self, MoneyError>)
        ensures
            outcome(r) == MoneyModel::from_total(self.currency_code@, self@.total_nanos()),
    {
        match normalize_money_fields_checked(self.units, self.nanos) {
            Ok((units, nanos)) => Ok(Self { currency_code: self.currency_code, units, nanos }),
            Err(e) => Err(e),
        }
    }

    /// An amount in normal form, or `OutOfRange` when the whole units do
    /// not fit in 64 bits.
    pub fn new(currency_code: &str, units: i64, nanos: i32) -> (r: Result<Self, MoneyError>)
        ensures
            outcome(r) == MoneyModel::from_total(
                currency_code@,
                total_of(units as int, nanos as int),
            ),
    {
        match normalize_money_fields_checked(units, nanos) {
            Ok((units, nanos)) => Ok(Self { currency_code: owned(currency_code), units, nanos }),
            Err(e) => Err(e),
        }
    }

    /// The error for an operand of another currency.
    fn mismatch(&self, other: &Self) -> (e: MoneyError)
        ensures
            e@ == (MoneyErrorModel::CurrencyMismatch {
                expected: self.currency_code@,
                found: other.currency_code@,
            }),
    {
        MoneyError::CurrencyMismatch {
            expected: self.currency_code.clone(),
            found: other.currency_code.clone(),
        }
    }

    /// The sum of two amounts of one currency, in normal form.
    pub fn try_add(&self, other: &Self) -> (r: Result<Self, MoneyError>)
        ensures
            outcome(r) == self@.combine(other@, self@.total_nanos() + other@.total_nanos()),
    {
        if self.currency_code != other.currency_code {
            return Err(self.mismatch(other));
        }
        let total = self.total_nanos() + other.total_nanos();
        Self::from_total_nanos(self.currency_code.as_str(), total)
    }

    /// Adds another amount of the same currency in place. On failure the
    /// amount is left as it was.
    pub fn try_add_assign(&mut self, other: &Self) -> (r: Result<(), MoneyError>)
        ensures
            match old(self)@.combine(other@, old(self)@.total_nanos() + other@.total_nanos()) {
                Ok(sum) => r is Ok && final(self)@ == sum,
                Err(e) => r is Err && r->Err_0@ == e && *final(self) == *old(self),
            },
    {
        if self.currency_code != other.currency_code {
            return Err(self.mismatch(other));
        }
        let total = self.total_nanos() + other.total_nanos();
        match fields_from_total_nanos(total) {
            Ok((units, nanos)) => {
                self.units = units;
                self.nanos = nanos;
                Ok(())
            },
            Err(e) => Err(e),
        }
    }

    /// The difference of two amounts of one currency, in normal form.
    pub fn try_sub(&self, other: &Self) -> (r: Result<Self, MoneyError>)
        ensures
            outcome(r) == self@.combine(other@, self@.total_nanos() - other@.total_nanos()),
    {
        if self.currency_code != other.currency_code {
            return Err(self.mismatch(other));
        }
        let total = self.total_nanos() - other.total_nanos();
        Self::from_total_nanos(self.currency_code.as_str(), total)
    }

    /// Subtracts another amount of the same currency in place. On failure
    /// the amount is left as it was.
    pub fn try_sub_assign(&mut self, other: &Self) -> (r: Result<(), MoneyError>)
        ensures
            match old(self)@.combine(other@, old(self)@.total_nanos() - other@.total_nanos()) {
                Ok(difference) => r is Ok && final(self)@ == difference,
                Err(e) => r is Err && r->Err_0@ == e && *final(self) == *old(self),
            },
    {
        if self.currency_code != other.currency_code {
            return Err(self.mismatch(other));
        }
        let total = self.total_nanos() - other.total_nanos();
        match fields_from_total_nanos(total) {
            Ok((units, nanos)) => {
                self.units = units;
                self.nanos = nanos;
                Ok(())
            },
            Err(e) => Err(e),
        }
    }

    /// The amount times an integer, in normal form.
    pub fn try_mul_i64(&self, rhs: i64) -> (r: Result<Self, MoneyError>)
        ensures
            outcome(r) == MoneyModel::from_total(self.currency_code@, self@.total_nanos() * rhs),
    {
        let total = self.total_nanos();
        match total.checked_mul(rhs as i128) {
            Some(product) => Self::from_total_nanos(self.currency_code.as_str(), product),
            None => {
                proof {
                    let p = total as int * rhs as int;
                    assert(p > i128::MAX || p < i128::MIN);
                    assert(!fits_i64(whole_of(p)));
                }
                Err(MoneyError::OutOfRange)
            },
        }
    }

    /// The amount divided by an integer, truncated toward zero to whole
    /// billionths; `OutOfRange` when the divisor is zero.
    pub fn try_div_i64(&self, rhs: i64) -> (r: Result<Self, MoneyError>)
        ensures
            outcome(r) == (if rhs == 0 {
                Err(MoneyErrorModel::OutOfRange)
            } else {
                MoneyModel::from_total(
                    self.currency_code@,
                    trunc_div(self@.total_nanos(), rhs as int),
                )
            }),
    {
        if rhs == 0 {
            return Err(MoneyError::OutOfRange);
        }
        let quotient = div_toward_zero(self.total_nanos(), rhs as i128);
        Self::from_total_nanos(self.currency_code.as_str(), quotient)
    }

    /// The negated amount, in normal form.
    pub fn try_neg(&self) -> (r: Result<Self, MoneyError>)
        ensures
            outcome(r) == MoneyModel::from_total(self.currency_code@, -self@.total_nanos()),
    {
        Self::from_total_nanos(self.currency_code.as_str(), -self.total_nanos())
    }

    /// Whether the currency code is `code`.
    #[must_use]
    pub fn is_currency(&self, code: &str) -> (r: bool)
        ensures
            r == (self.currency_code@ == code@),
    {
        str_equal(self.currency_code.as_str(), code)
    }

    /// Whether the currency is the United States dollar.
    #[must_use]
    pub fn is_usd(&self) -> (r: bool)
        ensures
            r == (self.currency_code@ == "USD"@),
    {
        self.is_currency("USD")
    }

    /// Whether the currency is the euro.
    #[must_use]
    pub fn is_eur(&self) -> (r: bool)
        ensures
            r == (self.currency_code@ == "EUR"@),
    {
        self.is_currency("EUR")
    }

    /// Whether the currency is the pound sterling.
    #[must_use]
    pub fn is_gbp(&self) -> (r: bool)
        ensures
            r == (self.currency_code@ == "GBP"@),
    {
        self.is_currency("GBP")
    }

    /// Whether the currency is the Japanese yen.
    #[must_use]
    pub fn is_jpy(&self) -> (r: bool)
        ensures
            r == (self.currency_code@ == "JPY"@),
    {
        self.is_currency("JPY")
    }

    /// Whether the currency is the Canadian dollar.
    #[must_use]
    pub fn is_cad(&self) -> (r: bool)
        ensures
            r == (self.currency_code@ == "CAD"@),
    {
        self.is_currency("CAD")
    }

    /// Whether the currency is the Australian dollar.
    #[must_use]
    pub fn is_aud(&self) -> (r: bool)
        ensures
            r == (self.currency_code@ == "AUD"@),
    {
        self.is_currency("AUD")
    }

    /// Whether the amount is above zero, judged by its fields.
    #[must_use]
    pub fn is_positive(&self) -> (r: bool)
        ensures
            r == (self.units > 0 || (self.units == 0 && self.nanos > 0)),
            self@.is_normalized() ==> r == (self@.total_nanos() > 0),
    {
        self.units > 0 || (self.units == 0 && self.nanos > 0)
    }

    /// Whether the amount is below zero, judged by its fields.
    #[must_use]
    pub fn is_negative(&self) -> (r: bool)
        ensures
            r == (self.units < 0 || (self.units == 0 && self.nanos < 0)),
            self@.is_normalized() ==> r == (self@.total_nanos() < 0),
    {
        self.units < 0 || (self.units == 0 && self.nanos < 0)
    }

    /// Whether the amount is exactly zero.
    #[must_use]
    pub fn is_zero(&self) -> (r: bool)
        ensures
            r == (self.units == 0 && self.nanos == 0),
            self@.is_normalized() ==> r == (self@.total_nanos() == 0),
    {
        self.units == 0 && self.nanos == 0
    }
}

impl PartialOrd for Money {
    /// Amounts of one currency are ordered by their totals; amounts of
    /// different currencies are not comparable.
    fn partial_cmp(&self, other: &Self) -> (r: Option<Ordering>) {
        if self.currency_code != other.currency_code {
            return None;
        }
        Some(crate::order::order_wide(self.total_nanos(), other.total_nanos()))
    }
}

impl PartialOrdSpecImpl for Money {
    open spec fn obeys_partial_cmp_spec() -> bool {
        true
    }

    open spec fn partial_cmp_spec(&self, other: &Self) -> Option<Ordering> {
        if self.currency_code@ != other.currency_code@ {
            None
        } else {
            Some(int_order(self@.total_nanos(), other@.total_nanos()))
        }
    }
}

/// At nine places nothing is cut, so nothing is rounded: the digits shown
/// are the stored fraction.
pub proof fn lemma_full_precision_is_exact(m: MoneyModel, symbol: Seq<char>, decimal_places: nat)
    requires
        decimal_places >= 9,
    ensures
        m.rounded_fraction(9) == abs_int(frac_of(m.total_nanos())),
        m.formatted(symbol, decimal_places) == (if m.total_nanos() < 0 {
            seq!['-']
        } else {
            Seq::<char>::empty()
        }) + symbol + decimal(abs_int(whole_of(m.total_nanos())) as nat) + seq!['.'] + zero_padded(
            abs_int(frac_of(m.total_nanos())) as nat,
            9,
        ),
{
    reveal_with_fuel(pow10, 11);
}

/// Amounts that arithmetic returns are in normal form.
pub proof fn lemma_from_total_is_normalized(currency_code: Seq<char>, total: int)
    ensures
        MoneyModel::from_total(currency_code, total) matches Ok(m) ==> m.is_normalized()
            && m.total_nanos() == total && m.currency_code == currency_code,
{
}

} // verus!
