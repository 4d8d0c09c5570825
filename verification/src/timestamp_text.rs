//! A timestamp as text, in the form of RFC 3339 at UTC, and back.

use vstd::prelude::*;

use crate::civil::{civil_from_seconds, civil_of, seconds_from_civil, CivilTime};
use crate::date::spec_days_in_month;
use crate::arith::{lemma_pow10_increases, lemma_pow10_values, pow10};
use crate::text::{chars_of, decimal, fraction_digits, push_decimal, push_signed_zero_padded, push_zero_padded, signed_zero_padded, zero_padded};
use crate::timestamp::{Timestamp, TimestampError};

verus! {

/// The text of a year: four digits at least; a plus sign in front of a
/// year of five digits or more, and a minus sign in front of a year before
/// year zero.
pub open spec fn year_text(year: int) -> Seq<char> {
    if year > 9999 {
        seq!['+'] + decimal(year as nat)
    } else if year < 0 {
        signed_zero_padded(year, 5)
    } else {
        zero_padded(year as nat, 4)
    }
}

/// The text of a date and time at UTC: `YYYY-MM-DDThh:mm:ss`, a point and
/// the fraction of the second without zeros at its end where there is a
/// fraction, and the letter `Z`.
pub open spec fn rfc3339_text(c: CivilTime, nanos: nat) -> Seq<char> {
    let head = year_text(c.year as int) + seq!['-'] + zero_padded(c.month as nat, 2) + seq!['-']
        + zero_padded(c.day as nat, 2) + seq!['T'] + zero_padded(c.hour as nat, 2) + seq![':']
        + zero_padded(c.minute as nat, 2) + seq![':'] + zero_padded(c.second as nat, 2);
    if nanos != 0 {
        head + seq!['.'] + fraction_digits(nanos, 9) + seq!['Z']
    } else {
        head + seq!['Z']
    }
}

/// The value of a decimal digit, if the character is one.
pub open spec fn digit_value(c: char) -> Option<nat> {
    if c == '0' {
        Some(0)
    } else if c == '1' {
        Some(1)
    } else if c == '2' {
        Some(2)
    } else if c == '3' {
        Some(3)
    } else if c == '4' {
        Some(4)
    } else if c == '5' {
        Some(5)
    } else if c == '6' {
        Some(6)
    } else if c == '7' {
        Some(7)
    } else if c == '8' {
        Some(8)
    } else if c == '9' {
        Some(9)
    } else {
        None
    }
}

/// How many decimal digits stand in a row in `s` from position `from` on.
pub open spec fn digit_run(s: Seq<char>, from: int) -> nat
    decreases s.len() - from,
{
    if 0 <= from < s.len() && digit_value(s[from]) is Some {
        1 + digit_run(s, from + 1)
    } else {
        0
    }
}

/// The number that the `count` digits of `s` from position `from` on
/// write in decimal.
pub open spec fn number_at(s: Seq<char>, from: int, count: nat) -> nat
    decreases count,
{
    if count == 0 {
        0
    } else {
        10 * number_at(s, from, (count - 1) as nat) + digit_value(s[from + count - 1]).unwrap()
    }
}

/// The nanoseconds that a fraction of `digits` digits stands for: the
/// digits, followed by zeros up to nine digits.
pub open spec fn nanos_of_fraction(value: nat, digits: nat) -> nat
    decreases 9 - digits,
{
    if digits >= 9 {
        value
    } else {
        nanos_of_fraction(value * 10, digits + 1)
    }
}

/// The parts of a timestamp text, as far as its form goes.
#[derive(Clone, Copy, Debug, PartialEq, Eq, Structural)]
pub struct TimestampParts {
    pub negative: bool,
    pub year: u64,
    pub month: u64,
    pub day: u64,
    pub hour: u64,
    pub minute: u64,
    pub second: u64,
    pub nanos: u64,
}

/// Reads the form `[+-]Y{4,12}-MM-DDThh:mm:ss[.f{1,9}]Z`. The fraction is
/// read as a fraction of a second: `.5` is 500,000,000 nanoseconds.
pub open spec fn timestamp_parts(s: Seq<char>) -> Option<TimestampParts> {
    let sign: int = if s.len() > 0 && (s[0] == '+' || s[0] == '-') {
        1
    } else {
        0
    };
    let year_digits = digit_run(s, sign);
    let p = sign + year_digits;
    let has_fraction = s.len() > p + 15 && s[p + 15] == '.';
    let fraction_digits = if has_fraction {
        digit_run(s, p + 16)
    } else {
        0
    };
    let end = if has_fraction {
        p + 16 + fraction_digits
    } else {
        p + 15
    };
    if 4 <= year_digits <= 12 && s.len() == end + 1 && s[p] == '-' && digit_run(s, p + 1) == 2
        && s[p + 3] == '-' && digit_run(s, p + 4) == 2 && s[p + 6] == 'T' && digit_run(s, p + 7)
        == 2 && s[p + 9] == ':' && digit_run(s, p + 10) == 2 && s[p + 12] == ':' && digit_run(
        s,
        p + 13,
    ) == 2 && (has_fraction ==> 1 <= fraction_digits <= 9) && s[end] == 'Z' {
        Some(
            TimestampParts {
                negative: s[0] == '-',
                year: number_at(s, sign, year_digits) as u64,
                month: number_at(s, p + 1, 2) as u64,
                day: number_at(s, p + 4, 2) as u64,
                hour: number_at(s, p + 7, 2) as u64,
                minute: number_at(s, p + 10, 2) as u64,
                second: number_at(s, p + 13, 2) as u64,
                nanos: if has_fraction {
                    nanos_of_fraction(number_at(s, p + 16, fraction_digits), fraction_digits) as u64
                } else {
                    0
                },
            },
        )
    } else {
        None
    }
}

impl TimestampParts {
    /// The year with its sign.
    pub open spec fn signed_year(self) -> int {
        if self.negative {
            -(self.year as int)
        } else {
            self.year as int
        }
    }

    /// Whether the parts name a day of the calendar and a second of it.
    pub open spec fn is_valid(self) -> bool {
        &&& 1 <= self.month <= 12
        &&& 1 <= self.day <= spec_days_in_month(self.month as int, self.signed_year())
        &&& self.hour < 24
        &&& self.minute < 60
        &&& self.second < 60
    }

    /// The date and time that the parts name.
    pub open spec fn civil(self) -> CivilTime {
        CivilTime {
            year: self.signed_year() as i64,
            month: self.month as u8,
            day: self.day as u8,
            hour: self.hour as u8,
            minute: self.minute as u8,
            second: self.second as u8,
        }
    }
}

/// What reading a text as a timestamp gives: `ParseFailure` for a text
/// that is not in the form, `InvalidDateTime` for a date or time that does
/// not exist or an instant beyond 64 bits of seconds, else the instant.
pub open spec fn spec_parse_timestamp(s: Seq<char>) -> Result<Timestamp, TimestampError> {
    match timestamp_parts(s) {
        None => Err(TimestampError::ParseFailure),
        Some(parts) => if !parts.is_valid() || !(i64::MIN <= parts.civil().unix_seconds()
            <= i64::MAX) {
            Err(TimestampError::InvalidDateTime)
        } else {
            Ok(
                Timestamp {
                    seconds: parts.civil().unix_seconds() as i64,
                    nanos: parts.nanos as i32,
                },
            )
        },
    }
}

/// The value of a decimal digit, if the character is one.
pub fn digit_of(c: char) -> (r: Option<u8>)
    ensures
        match r {
            Some(v) => digit_value(c) == Some(v as nat) && v <= 9,
            None => digit_value(c) is None,
        },
{
    match c {
        '0' => Some(0),
        '1' => Some(1),
        '2' => Some(2),
        '3' => Some(3),
        '4' => Some(4),
        '5' => Some(5),
        '6' => Some(6),
        '7' => Some(7),
        '8' => Some(8),
        '9' => Some(9),
        _ => None,
    }
}

/// Counts the digits in a row from `from` on, and reads them as a
/// number. Of a run of more than 18 digits only the length is given.
pub(crate) fn read_digits(chars: &Vec<char>, from: usize) -> (r: (usize, u64))
    requires
        from <= chars.len(),
    ensures
        r.0 == digit_run(chars@, from as int),
        from + r.0 <= chars.len(),
        r.0 <= 18 ==> r.1 == number_at(chars@, from as int, r.0 as nat),
        r.0 <= 18 ==> r.1 < pow10(r.0 as nat),
        r.0 <= 12 ==> r.1 < 1_000_000_000_000,
        r.0 <= 2 ==> r.1 < 100,
{
    let mut count: usize = 0;
    let mut value: u64 = 0;
    proof {
        reveal_with_fuel(pow10, 20);
    }
    while from + count < chars.len()
        invariant
            from + count <= chars.len(),
            digit_run(chars@, from as int) == count + digit_run(chars@, from + count),
            count <= 18 ==> value == number_at(chars@, from as int, count as nat),
            count <= 18 ==> value < pow10(count as nat),
            count > 18 ==> value == 0,
        decreases chars.len() - from - count,
    {
        match digit_of(chars[from + count]) {
            Some(d) => {
                proof {
                    reveal_with_fuel(pow10, 20);
                }
                if count < 18 {
                    assert(value < pow10(18));
                    value = value * 10 + (d as u64);
                } else {
                    value = 0;
                }
                count = count + 1;
            },
            None => {
                proof {
                    lemma_pow10_bounds(count as nat);
                }
                return (count, value);
            },
        }
    }
    proof {
        lemma_pow10_bounds(count as nat);
    }
    (count, value)
}

/// Bounds on the numbers of up to two and up to twelve digits.
proof fn lemma_pow10_bounds(count: nat)
    ensures
        count <= 12 ==> pow10(count) <= 1_000_000_000_000,
        count <= 2 ==> pow10(count) <= 100,
{
    reveal_with_fuel(pow10, 14);
    assert(pow10(12) == 1_000_000_000_000);
    assert(pow10(2) == 100);
    if count <= 12 {
        lemma_pow10_increases(count, 12);
    }
    if count <= 2 {
        lemma_pow10_increases(count, 2);
    }
}

impl Timestamp {
    /// The instant as text; see [`rfc3339_text`]. The instant is taken in
    /// normal form.
    pub open spec fn text(self) -> Seq<char> {
        rfc3339_text(
            civil_of(self.spec_normalized().seconds as int),
            self.spec_normalized().nanos as nat,
        )
    }

    /// The date and time of the instant at UTC, to the second.
    #[must_use]
    pub fn to_civil(&self) -> (c: CivilTime)
        ensures
            c == civil_of(self.spec_normalized().seconds as int),
    {
        civil_from_seconds(self.normalized().seconds)
    }

    /// The instant as text at UTC, such as `1970-01-01T00:00:00.5Z`.
    #[must_use]
    pub fn to_string(&self) -> (r: String)
        ensures
            r@ == self.text(),
    {
        let normal = self.normalized();
        let c = civil_from_seconds(normal.seconds);
        let mut out = String::new();
        if c.year > 9999 {
            out.push('+');
            push_decimal(&mut out, c.year as u128);
        } else if c.year < 0 {
            push_signed_zero_padded(&mut out, c.year as i128, 5);
        } else {
            push_zero_padded(&mut out, c.year as u128, 4);
        }
        assert(out@ =~= year_text(c.year as int));
        push_field(&mut out, '-', c.month);
        push_field(&mut out, '-', c.day);
        push_field(&mut out, 'T', c.hour);
        push_field(&mut out, ':', c.minute);
        push_field(&mut out, ':', c.second);
        if normal.nanos != 0 {
            let mut rest: u32 = normal.nanos as u32;
            let mut width: usize = 9;
            while width > 0 && rest % 10 == 0
                invariant
                    fraction_digits(rest as nat, width as nat) == fraction_digits(
                        normal.nanos as nat,
                        9,
                    ),
                decreases width,
            {
                rest = rest / 10;
                width = width - 1;
            }
            out.push('.');
            push_zero_padded(&mut out, rest as u128, width);
        }
        out.push('Z');
        assert(out@ =~= rfc3339_text(c, normal.nanos as nat));
        out
    }

    /// Reads an instant from its text at UTC; see [`spec_parse_timestamp`].
    pub fn from_str(s: &str) -> (r: Result<Self, TimestampError>)
        ensures
            r == spec_parse_timestamp(s@),
    {
        if s.unicode_len() > 40 {
            proof {
                lemma_parts_are_short(s@);
            }
            return Err(TimestampError::ParseFailure);
        }
        let chars = chars_of(s);
        match read_timestamp_parts(&chars) {
            Some(parts) => instant_from_parts(&parts),
            None => Err(TimestampError::ParseFailure),
        }
    }
}

/// Reads the parts of a timestamp text; see [`timestamp_parts`].
pub(crate) fn read_timestamp_parts(chars: &Vec<char>) -> (r: Option<TimestampParts>)
    requires
        chars.len() <= 40,
    ensures
        r == timestamp_parts(chars@),
        r matches Some(parts) ==> parts.year < 1_000_000_000_000 && parts.nanos < 1_000_000_000,
{
    let n = chars.len();
    let sign: usize = if n > 0 && (chars[0] == '+' || chars[0] == '-') {
        1
    } else {
        0
    };
    let (year_digits, year) = read_digits(chars, sign);
    let p = sign + year_digits;
    if year_digits < 4 || year_digits > 12 || n < p + 16 {
        return None;
    }
    let (month_digits, month) = read_digits(chars, p + 1);
    let (day_digits, day) = read_digits(chars, p + 4);
    let (hour_digits, hour) = read_digits(chars, p + 7);
    let (minute_digits, minute) = read_digits(chars, p + 10);
    let (second_digits, second) = read_digits(chars, p + 13);
    if chars[p] != '-' || month_digits != 2 || chars[p + 3] != '-' || day_digits != 2 || chars[p
        + 6] != 'T' || hour_digits != 2 || chars[p + 9] != ':' || minute_digits != 2 || chars[p
        + 12] != ':' || second_digits != 2 {
        return None;
    }
    let has_fraction = chars[p + 15] == '.';
    let mut nanos: u64 = 0;
    let mut end: usize = p + 15;
    if has_fraction {
        let (fraction_len, fraction) = read_digits(chars, p + 16);
        if fraction_len < 1 || fraction_len > 9 {
            return None;
        }
        nanos = fraction;
        let mut digits: usize = fraction_len;
        while digits < 9
            invariant
                digits <= 9,
                nanos < pow10(digits as nat),
                nanos_of_fraction(nanos as nat, digits as nat) == nanos_of_fraction(
                    fraction as nat,
                    fraction_len as nat,
                ),
            decreases 9 - digits,
        {
            proof {
                lemma_pow10_values();
            }
            nanos = nanos * 10;
            digits = digits + 1;
        }
        end = p + 16 + fraction_len;
    }
    if n != end + 1 || chars[end] != 'Z' {
        return None;
    }
    proof {
        lemma_pow10_values();
    }
    Some(TimestampParts { negative: chars[0] == '-', year, month, day, hour, minute, second, nanos })
}

/// The instant that the parts of a text name, if they name one.
pub(crate) fn instant_from_parts(parts: &TimestampParts) -> (r: Result<Timestamp, TimestampError>)
    requires
        parts.year < 1_000_000_000_000,
        parts.nanos < 1_000_000_000,
    ensures
        r == (if !parts.is_valid() || !(i64::MIN <= parts.civil().unix_seconds() <= i64::MAX) {
            Err::<Timestamp, TimestampError>(TimestampError::InvalidDateTime)
        } else {
            Ok::<Timestamp, TimestampError>(
                Timestamp {
                    seconds: parts.civil().unix_seconds() as i64,
                    nanos: parts.nanos as i32,
                },
            )
        }),
{
    let signed_year: i64 = if parts.negative {
        -(parts.year as i64)
    } else {
        parts.year as i64
    };
    if parts.month < 1 || parts.month > 12 || parts.day < 1 || parts.hour > 23 || parts.minute > 59
        || parts.second > 59 {
        return Err(TimestampError::InvalidDateTime);
    }
    if parts.day > crate::date::days_in_month(parts.month as i32, 0) as u64 {
        return Err(TimestampError::InvalidDateTime);
    }
    if parts.day == 29 && parts.month == 2 && !crate::civil::is_leap(signed_year as i128) {
        return Err(TimestampError::InvalidDateTime);
    }
    let c = CivilTime {
        year: signed_year,
        month: parts.month as u8,
        day: parts.day as u8,
        hour: parts.hour as u8,
        minute: parts.minute as u8,
        second: parts.second as u8,
    };
    let seconds = seconds_from_civil(&c);
    if seconds < -9_223_372_036_854_775_808 || seconds > 9_223_372_036_854_775_807 {
        return Err(TimestampError::InvalidDateTime);
    }
    Ok(Timestamp { seconds: seconds as i64, nanos: parts.nanos as i32 })
}

/// Appends a mark and a field of two digits.
fn push_field(out: &mut String, mark: char, value: u8)
    ensures
        final(out)@ == old(out)@ + seq![mark] + zero_padded(value as nat, 2),
{
    out.push(mark);
    push_zero_padded(out, value as u128, 2);
    assert(final(out)@ =~= old(out)@ + seq![mark] + zero_padded(value as nat, 2));
}

/// A text in the form of a timestamp has at most 40 characters.
proof fn lemma_parts_are_short(s: Seq<char>)
    ensures
        s.len() > 40 ==> timestamp_parts(s) is None,
{
}

} // verus!
