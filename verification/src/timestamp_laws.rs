//! Reading a timestamp from its own text gives the timestamp back.

use vstd::prelude::*;

use crate::civil::{
    days_before_month, days_before_year, days_from_civil, is_civil_of, lemma_date_within_year,
    lemma_year_length, CivilTime,
};
use crate::arith::{lemma_pow10_increases, lemma_pow10_values, pow10};
use crate::text::{decimal, digit_char, fraction_digits, zero_padded, zeros};
use crate::timestamp::Timestamp;
use crate::timestamp_text::{
    digit_run, digit_value, nanos_of_fraction,
    number_at, rfc3339_text, spec_parse_timestamp, timestamp_parts, year_text, TimestampParts,
};

verus! {

/// Whether every character is a decimal digit.
pub open spec fn all_digits(d: Seq<char>) -> bool {
    forall|i: int| 0 <= i < d.len() ==> (#[trigger] digit_value(d[i])) is Some
}

/// The number that a sequence of digits writes in decimal.
pub open spec fn value_of(d: Seq<char>) -> nat
    decreases d.len(),
{
    if d.len() == 0 {
        0
    } else {
        10 * value_of(d.drop_last()) + digit_value(d.last()).unwrap()
    }
}

/// The digits of a number are digits, and they write the number.
pub proof fn lemma_decimal_writes_number(n: nat)
    ensures
        all_digits(decimal(n)),
        value_of(decimal(n)) == n,
        decimal(n).len() >= 1,
    decreases n,
{
    if n < 10 {
        let d = decimal(n);
        assert(d.drop_last() =~= Seq::<char>::empty());
        assert(value_of(d.drop_last()) == 0);
        assert(digit_value(digit_char(n as int)) == Some(n));
    } else {
        lemma_decimal_writes_number(n / 10);
        let d = decimal(n);
        assert(d.drop_last() =~= decimal(n / 10));
        assert(digit_value(digit_char((n % 10) as int)) == Some(n % 10));
        assert forall|i: int| 0 <= i < d.len() implies (#[trigger] digit_value(d[i])) is Some by {
            if i < d.len() - 1 {
                assert(d[i] == decimal(n / 10)[i]);
            }
        }
    }
}

/// A number below ten to the `k` has at most `k` digits; a number of ten
/// to the `k` and more has more than `k`.
pub proof fn lemma_decimal_length(n: nat, k: nat)
    ensures
        k >= 1 && n < pow10(k) ==> decimal(n).len() <= k,
        n >= pow10(k) ==> decimal(n).len() > k,
    decreases k,
{
    reveal_with_fuel(pow10, 2);
    lemma_decimal_writes_number(n);
    if k == 0 {
    } else if n < 10 {
        lemma_pow10_increases(1, k);
    } else {
        lemma_decimal_length(n / 10, (k - 1) as nat);
        if k == 1 {
        }
    }
}

/// Zeros in front of digits are digits and do not change the number.
pub proof fn lemma_zeros_in_front(k: nat, d: Seq<char>)
    requires
        all_digits(d),
    ensures
        all_digits(zeros(k) + d),
        value_of(zeros(k) + d) == value_of(d),
    decreases d.len(), k,
{
    let s = zeros(k) + d;
    assert(digit_value('0') == Some(0nat));
    assert forall|i: int| 0 <= i < s.len() implies (#[trigger] digit_value(s[i])) is Some by {
        if i >= k {
            assert(s[i] == d[i - k]);
        }
    }
    if d.len() > 0 {
        assert(s.drop_last() =~= zeros(k) + d.drop_last());
        assert(all_digits(d.drop_last())) by {
            assert forall|i: int| 0 <= i < d.drop_last().len() implies (#[trigger] digit_value(
                d.drop_last()[i],
            )) is Some by {
                assert(d.drop_last()[i] == d[i]);
            }
        }
        lemma_zeros_in_front(k, d.drop_last());
    } else if k > 0 {
        assert(s.drop_last() =~= zeros((k - 1) as nat) + d);
        lemma_zeros_in_front((k - 1) as nat, d);
    } else {
        assert(s =~= d);
    }
}

/// A number padded with zeros is written in digits, writes the number,
/// and has the width asked for when the number fits in it.
pub proof fn lemma_zero_padded_writes_number(n: nat, width: nat)
    ensures
        all_digits(zero_padded(n, width)),
        value_of(zero_padded(n, width)) == n,
        zero_padded(n, width).len() >= 1,
        width >= 1 && n < pow10(width) ==> zero_padded(n, width).len() == width,
        zero_padded(n, width).len() >= width,
        zero_padded(n, width).len() >= decimal(n).len(),
        decimal(n).len() >= width ==> zero_padded(n, width) == decimal(n),
{
    lemma_decimal_writes_number(n);
    lemma_decimal_length(n, width);
    if decimal(n).len() < width {
        lemma_zeros_in_front((width - decimal(n).len()) as nat, decimal(n));
    }
}

/// The digits of a block stand in a row in a text that holds the block at
/// a place and no digit behind it, and they write the number of the block.
pub proof fn lemma_block(s: Seq<char>, at: int, d: Seq<char>)
    requires
        0 <= at,
        at + d.len() <= s.len(),
        s.subrange(at, at + d.len()) == d,
        all_digits(d),
        at + d.len() == s.len() || digit_value(s[at + d.len()]) is None,
    ensures
        digit_run(s, at) == d.len(),
        number_at(s, at, d.len()) == value_of(d),
{
    lemma_block_run(s, at, d, 0);
    lemma_block_number(s, at, d, d.len());
    assert(d.subrange(0, d.len() as int) =~= d);
}

proof fn lemma_block_run(s: Seq<char>, at: int, d: Seq<char>, k: nat)
    requires
        0 <= at,
        at + d.len() <= s.len(),
        s.subrange(at, at + d.len()) == d,
        all_digits(d),
        at + d.len() == s.len() || digit_value(s[at + d.len()]) is None,
        k <= d.len(),
    ensures
        digit_run(s, at + k) == d.len() - k,
    decreases d.len() - k,
{
    if k < d.len() {
        assert(s[at + k] == s.subrange(at, at + d.len())[k as int]);
        assert(digit_value(d[k as int]) is Some);
        lemma_block_run(s, at, d, k + 1);
    }
}

proof fn lemma_block_number(s: Seq<char>, at: int, d: Seq<char>, count: nat)
    requires
        0 <= at,
        at + d.len() <= s.len(),
        s.subrange(at, at + d.len()) == d,
        count <= d.len(),
    ensures
        number_at(s, at, count) == value_of(d.subrange(0, count as int)),
    decreases count,
{
    let head = d.subrange(0, count as int);
    if count > 0 {
        lemma_block_number(s, at, d, (count - 1) as nat);
        assert(head.drop_last() =~= d.subrange(0, count - 1));
        assert(head.last() == d[count - 1]);
        assert(s[at + count - 1] == s.subrange(at, at + d.len())[count - 1]);
    }
}

/// The nanoseconds of a fraction of `digits` digits.
pub proof fn lemma_nanos_of_fraction(value: nat, digits: nat)
    requires
        digits <= 9,
    ensures
        nanos_of_fraction(value, digits) == value * pow10((9 - digits) as nat),
    decreases 9 - digits,
{
    reveal_with_fuel(pow10, 2);
    if digits < 9 {
        lemma_nanos_of_fraction(value * 10, digits + 1);
        let k = pow10((9 - digits - 1) as nat);
        assert(pow10((9 - digits) as nat) == 10 * k);
        assert((value * 10) * k == value * (10 * k)) by (nonlinear_arith);
    } else {
        assert(value * 1 == value);
        assert(pow10(0) == 1);
    }
}

/// The digits of a fraction are digits, at most `width` of them, and read
/// as a fraction they give the number they were written from.
pub proof fn lemma_fraction_digits(x: nat, width: nat)
    requires
        1 <= width <= 9,
        0 < x < pow10(width),
    ensures
        all_digits(fraction_digits(x, width)),
        1 <= fraction_digits(x, width).len() <= width,
        nanos_of_fraction(value_of(fraction_digits(x, width)), fraction_digits(x, width).len())
            == x * pow10((9 - width) as nat),
    decreases width,
{
    reveal_with_fuel(pow10, 2);
    if x % 10 == 0 {
        assert(x >= 10);
        if width == 1 {
            assert(pow10(1) == 10);
        } else {
            let y = x / 10;
            lemma_fraction_digits(y, (width - 1) as nat);
            let k = pow10((9 - width) as nat);
            assert(pow10((9 - (width - 1)) as nat) == 10 * k);
            assert(y * (10 * k) == x * k) by (nonlinear_arith)
                requires
                    x == 10 * y,
            ;
        }
    } else {
        lemma_zero_padded_writes_number(x, width);
        lemma_nanos_of_fraction(x, width);
    }
}

/// A block of digits between a text before it and a text behind it that
/// starts with another character.
pub proof fn lemma_block_between(s: Seq<char>, before: Seq<char>, d: Seq<char>, behind: Seq<char>)
    requires
        s == before + d + behind,
        all_digits(d),
        behind.len() > 0,
        digit_value(behind[0]) is None,
    ensures
        digit_run(s, before.len() as int) == d.len(),
        number_at(s, before.len() as int, d.len()) == value_of(d),
        s[(before.len() + d.len()) as int] == behind[0],
        s.len() == before.len() + d.len() + behind.len(),
{
    assert(s.subrange(before.len() as int, (before.len() + d.len()) as int) =~= d);
    lemma_block(s, before.len() as int, d);
}

/// The layout of the text of a date and time, from its pieces.
pub open spec fn assemble(
    sign: Seq<char>,
    year: Seq<char>,
    month: Seq<char>,
    day: Seq<char>,
    hour: Seq<char>,
    minute: Seq<char>,
    second: Seq<char>,
    tail: Seq<char>,
) -> Seq<char> {
    sign + year + seq!['-'] + month + seq!['-'] + day + seq!['T'] + hour + seq![':'] + minute
        + seq![':'] + second + tail
}

/// What the form of a timestamp asks of a text, up to the seconds.
pub open spec fn head_is_read(
    s: Seq<char>,
    sign: int,
    year: Seq<char>,
    month: Seq<char>,
    day: Seq<char>,
    hour: Seq<char>,
    minute: Seq<char>,
    second: Seq<char>,
) -> bool {
    let p = sign + year.len();
    &&& digit_run(s, sign) == year.len()
    &&& number_at(s, sign, year.len()) == value_of(year)
    &&& s[p] == '-'
    &&& digit_run(s, p + 1) == 2
    &&& number_at(s, p + 1, 2) == value_of(month)
    &&& s[p + 3] == '-'
    &&& digit_run(s, p + 4) == 2
    &&& number_at(s, p + 4, 2) == value_of(day)
    &&& s[p + 6] == 'T'
    &&& digit_run(s, p + 7) == 2
    &&& number_at(s, p + 7, 2) == value_of(hour)
    &&& s[p + 9] == ':'
    &&& digit_run(s, p + 10) == 2
    &&& number_at(s, p + 10, 2) == value_of(minute)
    &&& s[p + 12] == ':'
    &&& digit_run(s, p + 13) == 2
    &&& number_at(s, p + 13, 2) == value_of(second)
}

/// Whether the pieces have the sizes of the form and are written in digits.
pub open spec fn pieces_fit(
    sign: Seq<char>,
    year: Seq<char>,
    month: Seq<char>,
    day: Seq<char>,
    hour: Seq<char>,
    minute: Seq<char>,
    second: Seq<char>,
    tail: Seq<char>,
) -> bool {
    &&& sign.len() <= 1
    &&& all_digits(year)
    &&& all_digits(month)
    &&& all_digits(day)
    &&& all_digits(hour)
    &&& all_digits(minute)
    &&& all_digits(second)
    &&& month.len() == 2
    &&& day.len() == 2
    &&& hour.len() == 2
    &&& minute.len() == 2
    &&& second.len() == 2
    &&& tail.len() > 0
    &&& digit_value(tail[0]) is None
}

proof fn lemma_marks_are_no_digits()
    ensures
        digit_value('-') is None,
        digit_value('T') is None,
        digit_value(':') is None,
        digit_value('.') is None,
        digit_value('Z') is None,
        digit_value('+') is None,
{
}

proof fn lemma_read_year_and_month(
    sign: Seq<char>,
    year: Seq<char>,
    month: Seq<char>,
    day: Seq<char>,
    hour: Seq<char>,
    minute: Seq<char>,
    second: Seq<char>,
    tail: Seq<char>,
)
    requires
        pieces_fit(sign, year, month, day, hour, minute, second, tail),
    ensures
        ({
            let s = assemble(sign, year, month, day, hour, minute, second, tail);
            let p = (sign.len() + year.len()) as int;
            &&& s.len() == p + 15 + tail.len()
            &&& digit_run(s, sign.len() as int) == year.len()
            &&& number_at(s, sign.len() as int, year.len()) == value_of(year)
            &&& s[p] == '-'
            &&& digit_run(s, p + 1) == 2
            &&& number_at(s, p + 1, 2) == value_of(month)
            &&& s[p + 3] == '-'
            &&& (sign.len() == 1 ==> s[0] == sign[0])
            &&& (sign.len() == 0 && year.len() > 0 ==> s[0] == year[0])
        }),
{
    lemma_marks_are_no_digits();
    let s = assemble(sign, year, month, day, hour, minute, second, tail);
    let rest = seq!['-'] + day + seq!['T'] + hour + seq![':'] + minute + seq![':'] + second + tail;
    let behind_year = seq!['-'] + month + rest;
    assert(s =~= sign + year + behind_year);
    lemma_block_between(s, sign, year, behind_year);
    assert(s =~= (sign + year + seq!['-']) + month + rest);
    lemma_block_between(s, sign + year + seq!['-'], month, rest);
}

proof fn lemma_read_day_and_hour(
    sign: Seq<char>,
    year: Seq<char>,
    month: Seq<char>,
    day: Seq<char>,
    hour: Seq<char>,
    minute: Seq<char>,
    second: Seq<char>,
    tail: Seq<char>,
)
    requires
        pieces_fit(sign, year, month, day, hour, minute, second, tail),
    ensures
        ({
            let s = assemble(sign, year, month, day, hour, minute, second, tail);
            let p = (sign.len() + year.len()) as int;
            &&& digit_run(s, p + 4) == 2
            &&& number_at(s, p + 4, 2) == value_of(day)
            &&& s[p + 6] == 'T'
            &&& digit_run(s, p + 7) == 2
            &&& number_at(s, p + 7, 2) == value_of(hour)
            &&& s[p + 9] == ':'
        }),
{
    lemma_marks_are_no_digits();
    let s = assemble(sign, year, month, day, hour, minute, second, tail);
    let before_day = sign + year + seq!['-'] + month + seq!['-'];
    let rest = seq![':'] + minute + seq![':'] + second + tail;
    let behind_day = seq!['T'] + hour + rest;
    assert(s =~= before_day + day + behind_day);
    lemma_block_between(s, before_day, day, behind_day);
    assert(s =~= (before_day + day + seq!['T']) + hour + rest);
    lemma_block_between(s, before_day + day + seq!['T'], hour, rest);
}

proof fn lemma_read_minute_and_second(
    sign: Seq<char>,
    year: Seq<char>,
    month: Seq<char>,
    day: Seq<char>,
    hour: Seq<char>,
    minute: Seq<char>,
    second: Seq<char>,
    tail: Seq<char>,
)
    requires
        pieces_fit(sign, year, month, day, hour, minute, second, tail),
    ensures
        ({
            let s = assemble(sign, year, month, day, hour, minute, second, tail);
            let p = (sign.len() + year.len()) as int;
            &&& digit_run(s, p + 10) == 2
            &&& number_at(s, p + 10, 2) == value_of(minute)
            &&& s[p + 12] == ':'
            &&& digit_run(s, p + 13) == 2
            &&& number_at(s, p + 13, 2) == value_of(second)
            &&& s[p + 15] == tail[0]
            &&& s.subrange(p + 15, s.len() as int) == tail
        }),
{
    lemma_marks_are_no_digits();
    let s = assemble(sign, year, month, day, hour, minute, second, tail);
    let before_minute = sign + year + seq!['-'] + month + seq!['-'] + day + seq!['T'] + hour + seq![
        ':',
    ];
    let behind_minute = seq![':'] + second + tail;
    assert(s =~= before_minute + minute + behind_minute);
    lemma_block_between(s, before_minute, minute, behind_minute);
    assert(s =~= (before_minute + minute + seq![':']) + second + tail);
    lemma_block_between(s, before_minute + minute + seq![':'], second, tail);
    let p = (sign.len() + year.len()) as int;
    assert(s.subrange(p + 15, s.len() as int) =~= tail);
}

/// The pieces of a text in the form of a timestamp are read as they were
/// put together.
pub proof fn lemma_head_is_read(
    sign: Seq<char>,
    year: Seq<char>,
    month: Seq<char>,
    day: Seq<char>,
    hour: Seq<char>,
    minute: Seq<char>,
    second: Seq<char>,
    tail: Seq<char>,
)
    requires
        pieces_fit(sign, year, month, day, hour, minute, second, tail),
    ensures
        ({
            let s = assemble(sign, year, month, day, hour, minute, second, tail);
            let p = (sign.len() + year.len()) as int;
            &&& head_is_read(s, sign.len() as int, year, month, day, hour, minute, second)
            &&& s.len() == p + 15 + tail.len()
            &&& s.subrange(p + 15, s.len() as int) == tail
            &&& (sign.len() == 1 ==> s[0] == sign[0])
            &&& (sign.len() == 0 && year.len() > 0 ==> s[0] == year[0])
        }),
{
    lemma_read_year_and_month(sign, year, month, day, hour, minute, second, tail);
    lemma_read_day_and_hour(sign, year, month, day, hour, minute, second, tail);
    lemma_read_minute_and_second(sign, year, month, day, hour, minute, second, tail);
}

/// The tail of a text without a fraction is read as no fraction.
proof fn lemma_parts_without_fraction(
    s: Seq<char>,
    sign: int,
    year: Seq<char>,
    month: Seq<char>,
    day: Seq<char>,
    hour: Seq<char>,
    minute: Seq<char>,
    second: Seq<char>,
)
    requires
        0 <= sign <= 1,
        sign == 1 <==> (s[0] == '+' || s[0] == '-'),
        4 <= year.len() <= 12,
        head_is_read(s, sign, year, month, day, hour, minute, second),
        s.len() == sign + year.len() + 16,
        s[sign + year.len() + 15] == 'Z',
    ensures
        timestamp_parts(s) == Some(
            TimestampParts {
                negative: s[0] == '-',
                year: value_of(year) as u64,
                month: value_of(month) as u64,
                day: value_of(day) as u64,
                hour: value_of(hour) as u64,
                minute: value_of(minute) as u64,
                second: value_of(second) as u64,
                nanos: 0,
            },
        ),
{
}

/// The tail of a text with a fraction is read as that fraction.
proof fn lemma_parts_with_fraction(
    s: Seq<char>,
    sign: int,
    year: Seq<char>,
    month: Seq<char>,
    day: Seq<char>,
    hour: Seq<char>,
    minute: Seq<char>,
    second: Seq<char>,
    fraction: Seq<char>,
)
    requires
        0 <= sign <= 1,
        sign == 1 <==> (s[0] == '+' || s[0] == '-'),
        4 <= year.len() <= 12,
        head_is_read(s, sign, year, month, day, hour, minute, second),
        1 <= fraction.len() <= 9,
        s.len() == sign + year.len() + 17 + fraction.len(),
        s[sign + year.len() + 15] == '.',
        digit_run(s, sign + year.len() + 16) == fraction.len(),
        number_at(s, sign + year.len() + 16, fraction.len()) == value_of(fraction),
        s[sign + year.len() + 16 + fraction.len()] == 'Z',
    ensures
        timestamp_parts(s) == Some(
            TimestampParts {
                negative: s[0] == '-',
                year: value_of(year) as u64,
                month: value_of(month) as u64,
                day: value_of(day) as u64,
                hour: value_of(hour) as u64,
                minute: value_of(minute) as u64,
                second: value_of(second) as u64,
                nanos: nanos_of_fraction(value_of(fraction), fraction.len()) as u64,
            },
        ),
{
}

/// The sign and the digits of the text of a year.
pub proof fn lemma_year_text(y: int)
    requires
        -999_999_999_999 <= y <= 999_999_999_999,
    ensures
        ({
            let sign = if y > 9999 {
                seq!['+']
            } else if y < 0 {
                seq!['-']
            } else {
                Seq::<char>::empty()
            };
            let digits = if y > 9999 {
                decimal(y as nat)
            } else {
                zero_padded(crate::arith::abs_int(y) as nat, 4)
            };
            &&& year_text(y) == sign + digits
            &&& all_digits(digits)
            &&& value_of(digits) == crate::arith::abs_int(y)
            &&& 4 <= digits.len() <= 12
        }),
{
    reveal_with_fuel(pow10, 14);
    assert(pow10(12) == 1_000_000_000_000);
    assert(pow10(4) == 10_000);
    let size = crate::arith::abs_int(y) as nat;
    lemma_zero_padded_writes_number(size, 4);
    lemma_decimal_writes_number(size);
    lemma_decimal_length(size, 12);
    lemma_decimal_length(size, 4);
    let sign = if y > 9999 {
        seq!['+']
    } else if y < 0 {
        seq!['-']
    } else {
        Seq::<char>::empty()
    };
    let digits = if y > 9999 {
        decimal(y as nat)
    } else {
        zero_padded(size, 4)
    };
    assert(year_text(y) =~= sign + digits);
    if !(y > 9999) && zero_padded(size, 4).len() > 4 {
        assert(zero_padded(size, 4) == decimal(size));
    }
}

/// The text of a date and time, put together from its pieces.
pub proof fn lemma_text_layout(c: CivilTime, nanos: nat, sign: Seq<char>, year: Seq<char>)
    requires
        year_text(c.year as int) == sign + year,
        nanos < 1_000_000_000,
    ensures
        rfc3339_text(c, nanos) == assemble(
            sign,
            year,
            zero_padded(c.month as nat, 2),
            zero_padded(c.day as nat, 2),
            zero_padded(c.hour as nat, 2),
            zero_padded(c.minute as nat, 2),
            zero_padded(c.second as nat, 2),
            if nanos != 0 {
                seq!['.'] + fraction_digits(nanos, 9) + seq!['Z']
            } else {
                seq!['Z']
            },
        ),
{
    let tail = if nanos != 0 {
        seq!['.'] + fraction_digits(nanos, 9) + seq!['Z']
    } else {
        seq!['Z']
    };
    assert(rfc3339_text(c, nanos) =~= assemble(
        sign,
        year,
        zero_padded(c.month as nat, 2),
        zero_padded(c.day as nat, 2),
        zero_padded(c.hour as nat, 2),
        zero_padded(c.minute as nat, 2),
        zero_padded(c.second as nat, 2),
        tail,
    ));
}

/// What follows the seconds: a point and the fraction where there is one,
/// and the letter `Z`.
pub open spec fn tail_of(fraction: Seq<char>) -> Seq<char> {
    if fraction.len() > 0 {
        seq!['.'] + fraction + seq!['Z']
    } else {
        seq!['Z']
    }
}

/// A text put together from pieces in digits reads back as the numbers of
/// the pieces.
pub proof fn lemma_parts_of_assembled(
    sign: Seq<char>,
    year: Seq<char>,
    month: Seq<char>,
    day: Seq<char>,
    hour: Seq<char>,
    minute: Seq<char>,
    second: Seq<char>,
    fraction: Seq<char>,
)
    requires
        sign.len() == 0 || sign == seq!['+'] || sign == seq!['-'],
        4 <= year.len() <= 12,
        fraction.len() <= 9,
        all_digits(fraction),
        pieces_fit(sign, year, month, day, hour, minute, second, tail_of(fraction)),
    ensures
        timestamp_parts(
            assemble(sign, year, month, day, hour, minute, second, tail_of(fraction)),
        ) == Some(
            TimestampParts {
                negative: sign == seq!['-'],
                year: value_of(year) as u64,
                month: value_of(month) as u64,
                day: value_of(day) as u64,
                hour: value_of(hour) as u64,
                minute: value_of(minute) as u64,
                second: value_of(second) as u64,
                nanos: if fraction.len() > 0 {
                    nanos_of_fraction(value_of(fraction), fraction.len()) as u64
                } else {
                    0
                },
            },
        ),
{
    lemma_marks_are_no_digits();
    let tail = tail_of(fraction);
    let s = assemble(sign, year, month, day, hour, minute, second, tail);
    lemma_head_is_read(sign, year, month, day, hour, minute, second, tail);
    let p = (sign.len() + year.len()) as int;
    if sign.len() == 0 {
        assert(digit_value(year[0]) is Some);
    } else {
        assert(sign[0] == '+' || sign[0] == '-');
    }
    assert(s[p + 15] == tail[0]);
    if fraction.len() > 0 {
        assert(tail.subrange(1, (1 + fraction.len()) as int) =~= fraction);
        assert(tail[(1 + fraction.len()) as int] == 'Z');
        lemma_block(tail, 1, fraction);
        lemma_run_in_tail(s, p + 15, tail, 1, fraction.len());
        lemma_parts_with_fraction(
            s,
            sign.len() as int,
            year,
            month,
            day,
            hour,
            minute,
            second,
            fraction,
        );
    } else {
        lemma_parts_without_fraction(s, sign.len() as int, year, month, day, hour, minute, second);
    }
}

/// The fraction of the text of an instant: its digits, and what they read as.
pub proof fn lemma_fraction_of_text(nanos: nat)
    requires
        nanos < 1_000_000_000,
    ensures
        ({
            let fraction = if nanos != 0 {
                fraction_digits(nanos, 9)
            } else {
                Seq::<char>::empty()
            };
            &&& all_digits(fraction)
            &&& fraction.len() <= 9
            &&& (nanos != 0 ==> fraction.len() >= 1 && nanos_of_fraction(
                value_of(fraction),
                fraction.len(),
            ) == nanos)
            &&& tail_of(fraction) == (if nanos != 0 {
                seq!['.'] + fraction_digits(nanos, 9) + seq!['Z']
            } else {
                seq!['Z']
            })
        }),
{
    lemma_pow10_values();
    if nanos != 0 {
        lemma_fraction_digits(nanos, 9);
        assert(pow10(0) == 1);
        assert(nanos * 1 == nanos);
    }
}

/// A field of two digits: its digits write its number.
pub proof fn lemma_two_digits(n: nat)
    requires
        n < 100,
    ensures
        all_digits(zero_padded(n, 2)),
        zero_padded(n, 2).len() == 2,
        value_of(zero_padded(n, 2)) == n,
{
    lemma_pow10_values();
    lemma_zero_padded_writes_number(n, 2);
}

/// The text of a date and time reads back as its parts.
pub proof fn lemma_parts_of_text(c: CivilTime, nanos: nat)
    requires
        c.is_valid(),
        -999_999_999_999 <= c.year <= 999_999_999_999,
        nanos < 1_000_000_000,
    ensures
        timestamp_parts(rfc3339_text(c, nanos)) == Some(
            TimestampParts {
                negative: c.year < 0,
                year: crate::arith::abs_int(c.year as int) as u64,
                month: c.month as u64,
                day: c.day as u64,
                hour: c.hour as u64,
                minute: c.minute as u64,
                second: c.second as u64,
                nanos: nanos as u64,
            },
        ),
{
    let y = c.year as int;
    let sign = if y > 9999 {
        seq!['+']
    } else if y < 0 {
        seq!['-']
    } else {
        Seq::<char>::empty()
    };
    let year = if y > 9999 {
        decimal(y as nat)
    } else {
        zero_padded(crate::arith::abs_int(y) as nat, 4)
    };
    let fraction = if nanos != 0 {
        fraction_digits(nanos, 9)
    } else {
        Seq::<char>::empty()
    };
    lemma_year_text(y);
    lemma_two_digits(c.month as nat);
    lemma_two_digits(c.day as nat);
    lemma_two_digits(c.hour as nat);
    lemma_two_digits(c.minute as nat);
    lemma_two_digits(c.second as nat);
    lemma_fraction_of_text(nanos);
    lemma_text_layout(c, nanos, sign, year);
    lemma_marks_are_no_digits();
    assert(seq!['+'] != seq!['-']) by {
        assert(seq!['+'][0] != seq!['-'][0]);
    }
    assert(tail_of(fraction).len() > 0 && digit_value(tail_of(fraction)[0]) is None);
    lemma_parts_of_assembled(
        sign,
        year,
        zero_padded(c.month as nat, 2),
        zero_padded(c.day as nat, 2),
        zero_padded(c.hour as nat, 2),
        zero_padded(c.minute as nat, 2),
        zero_padded(c.second as nat, 2),
        fraction,
    );
}

/// Digits read in the tail of a text are read the same in the text.
proof fn lemma_run_in_tail(s: Seq<char>, start: int, tail: Seq<char>, at: int, count: nat)
    requires
        0 <= start <= s.len(),
        s.subrange(start, s.len() as int) == tail,
        0 <= at,
        at + count < tail.len(),
        digit_run(tail, at) == count,
    ensures
        digit_run(s, start + at) == count,
        number_at(s, start + at, count) == number_at(tail, at, count),
        s[start + at + count] == tail[at + count],
        start + tail.len() == s.len(),
        at > 0 ==> s[start + at - 1] == tail[at - 1],
{
    assert(forall|i: int| 0 <= i < tail.len() ==> tail[i] == s.subrange(start, s.len() as int)[i]);
    lemma_same_run(s, start, tail, at);
    lemma_same_number(s, start, tail, at, count);
}

proof fn lemma_same_run(s: Seq<char>, start: int, tail: Seq<char>, at: int)
    requires
        0 <= start <= s.len(),
        s.subrange(start, s.len() as int) == tail,
        0 <= at,
    ensures
        digit_run(s, start + at) == digit_run(tail, at),
    decreases tail.len() - at,
{
    if at < tail.len() {
        assert(tail[at] == s.subrange(start, s.len() as int)[at]);
        if digit_value(tail[at]) is Some {
            lemma_same_run(s, start, tail, at + 1);
        }
    }
}

proof fn lemma_same_number(s: Seq<char>, start: int, tail: Seq<char>, at: int, count: nat)
    requires
        0 <= start <= s.len(),
        s.subrange(start, s.len() as int) == tail,
        0 <= at,
        at + count <= tail.len(),
    ensures
        number_at(s, start + at, count) == number_at(tail, at, count),
    decreases count,
{
    if count > 0 {
        lemma_same_number(s, start, tail, at, (count - 1) as nat);
        assert(tail[at + count - 1] == s.subrange(start, s.len() as int)[at + count - 1]);
    }
}

/// Reading the text of a date and time gives its instant back.
pub proof fn lemma_reading_inverts_writing(c: CivilTime, nanos: nat)
    requires
        c.is_valid(),
        -999_999_999_999 <= c.year <= 999_999_999_999,
        nanos < 1_000_000_000,
        i64::MIN <= c.unix_seconds() <= i64::MAX,
    ensures
        spec_parse_timestamp(rfc3339_text(c, nanos)) == Ok::<
            Timestamp,
            crate::timestamp::TimestampError,
        >(Timestamp { seconds: c.unix_seconds() as i64, nanos: nanos as i32 }),
{
    lemma_parts_of_text(c, nanos);
    let parts = timestamp_parts(rfc3339_text(c, nanos)).unwrap();
    assert(parts.signed_year() == c.year);
    assert(parts.civil() == c);
}

/// The years of the instants that 64 bits of seconds can hold have at
/// most twelve digits.
pub proof fn lemma_year_of_instant(seconds: int, c: CivilTime)
    requires
        i64::MIN <= seconds <= i64::MAX,
        is_civil_of(seconds, c),
    ensures
        -999_999_999_999 <= c.year <= 999_999_999_999,
{
    lemma_date_within_year(c.year as int, c.month as int, c.day as int);
    let y = c.year as int;
    let days = days_from_civil(y, c.month as int, c.day as int);
    assert(-106_751_991_167_301 <= days <= 106_751_991_167_301);
    if y >= 1 {
        assert(days_before_year(y) >= 365 * (y - 1));
    } else {
        assert(days_before_year(y + 1) <= 364 * y + 1);
    }
}

/// A year that starts on the day `z` or before it, at or before `guess`.
proof fn lemma_year_not_after(z: int, guess: int) -> (y: int)
    ensures
        days_before_year(y) <= z,
    decreases
            (if days_before_year(guess) > z {
                days_before_year(guess) - z
            } else {
                0
            }),
{
    if days_before_year(guess) > z {
        lemma_year_length(guess - 1);
        lemma_year_not_after(z, guess - 1)
    } else {
        guess
    }
}

/// The year that holds the day `z`, at or after a year that starts on the
/// day or before it.
proof fn lemma_year_holding(z: int, start: int) -> (y: int)
    requires
        days_before_year(start) <= z,
    ensures
        days_before_year(y) <= z < days_before_year(y + 1),
    decreases z - days_before_year(start),
{
    lemma_year_length(start);
    if days_before_year(start + 1) <= z {
        lemma_year_holding(z, start + 1)
    } else {
        start
    }
}

/// The month that holds the day `in_year` of a year.
proof fn lemma_month_holding(year: int, in_year: int) -> (m: int)
    requires
        0 <= in_year < days_before_year(year + 1) - days_before_year(year),
    ensures
        1 <= m <= 12,
        1 <= in_year - days_before_month(year, m) + 1 <= crate::date::spec_days_in_month(m, year),
{
    lemma_year_length(year);
    if in_year < days_before_month(year, 2) {
        1
    } else if in_year < days_before_month(year, 3) {
        2
    } else if in_year < days_before_month(year, 4) {
        3
    } else if in_year < days_before_month(year, 5) {
        4
    } else if in_year < days_before_month(year, 6) {
        5
    } else if in_year < days_before_month(year, 7) {
        6
    } else if in_year < days_before_month(year, 8) {
        7
    } else if in_year < days_before_month(year, 9) {
        8
    } else if in_year < days_before_month(year, 10) {
        9
    } else if in_year < days_before_month(year, 11) {
        10
    } else if in_year < days_before_month(year, 12) {
        11
    } else {
        12
    }
}

/// Every instant that 64 bits of seconds can hold has a date and time.
pub proof fn lemma_civil_exists(seconds: int)
    requires
        i64::MIN <= seconds <= i64::MAX,
    ensures
        is_civil_of(seconds, crate::civil::civil_of(seconds)),
{
    let days = seconds / 86_400;
    let in_day = seconds % 86_400;
    let z = days + 719_162;
    let before = lemma_year_not_after(z, 1970);
    let y = lemma_year_holding(z, before);
    let in_year = z - days_before_year(y);
    let m = lemma_month_holding(y, in_year);
    let d = in_year - days_before_month(y, m) + 1;
    assert(-106_751_991_167_301 <= days <= 106_751_991_167_301);
    if y >= 1 {
        assert(days_before_year(y) >= 365 * (y - 1));
    } else {
        assert(days_before_year(y + 1) <= 364 * y + 1);
    }
    let c = CivilTime {
        year: y as i64,
        month: m as u8,
        day: d as u8,
        hour: (in_day / 3_600) as u8,
        minute: ((in_day % 3_600) / 60) as u8,
        second: (in_day % 60) as u8,
    };
    assert(is_civil_of(seconds, c));
}

/// Round trip: the text of a timestamp reads back as the timestamp in
/// normal form.
pub proof fn lemma_text_round_trip(t: Timestamp)
    ensures
        spec_parse_timestamp(t.text()) == Ok::<Timestamp, crate::timestamp::TimestampError>(
            t.spec_normalized(),
        ),
{
    let normal = t.spec_normalized();
    let c = crate::civil::civil_of(normal.seconds as int);
    lemma_civil_exists(normal.seconds as int);
    lemma_year_of_instant(normal.seconds as int, c);
    lemma_reading_inverts_writing(c, normal.nanos as nat);
}

} // verus!
