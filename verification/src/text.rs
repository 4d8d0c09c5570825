//! Decimal rendering of integers, stated over sequences of characters.

use vstd::prelude::*;
use vstd::string::StringExecFns;

verus! {

/// The character of a single decimal digit.
pub open spec fn digit_char(d: int) -> char {
    if d == 0 {
        '0'
    } else if d == 1 {
        '1'
    } else if d == 2 {
        '2'
    } else if d == 3 {
        '3'
    } else if d == 4 {
        '4'
    } else if d == 5 {
        '5'
    } else if d == 6 {
        '6'
    } else if d == 7 {
        '7'
    } else if d == 8 {
        '8'
    } else {
        '9'
    }
}

/// Decimal digits of a natural number, most significant first, without
/// leading zeros (zero is the single digit `0`).
pub open spec fn decimal(n: nat) -> Seq<char>
    decreases n,
{
    if n < 10 {
        seq![digit_char(n as int)]
    } else {
        decimal(n / 10).push(digit_char((n % 10) as int))
    }
}

/// `k` zero digits.
pub open spec fn zeros(k: nat) -> Seq<char> {
    Seq::new(k, |i: int| '0')
}

/// Decimal digits of `n`, with zeros in front up to `width` characters; a
/// number that needs more digits is not cut.
pub open spec fn zero_padded(n: nat, width: nat) -> Seq<char> {
    if decimal(n).len() >= width {
        decimal(n)
    } else {
        zeros((width - decimal(n).len()) as nat) + decimal(n)
    }
}

/// The digits after the decimal point for `nanos` counted in units of
/// ten to the minus `width`: `width` digits with zeros in front, without the
/// zeros at the end.
pub open spec fn fraction_digits(nanos: nat, width: nat) -> Seq<char>
    decreases width,
{
    if width > 0 && nanos % 10 == 0 {
        fraction_digits(nanos / 10, (width - 1) as nat)
    } else {
        zero_padded(nanos, width)
    }
}

/// Decimal rendering of an integer, with a minus sign when it is negative.
pub open spec fn signed_decimal(v: int) -> Seq<char> {
    if v < 0 {
        seq!['-'] + decimal((-v) as nat)
    } else {
        decimal(v as nat)
    }
}

/// Decimal rendering padded with zeros to `width` characters in all; the
/// minus sign of a negative number counts toward the width.
pub open spec fn signed_zero_padded(v: int, width: nat) -> Seq<char> {
    if v < 0 {
        seq!['-'] + zero_padded((-v) as nat, if width > 0 {
            (width - 1) as nat
        } else {
            0
        })
    } else {
        zero_padded(v as nat, width)
    }
}

/// `String::push` of the standard library appends one character to the end
/// of the string and changes nothing else.
pub assume_specification[ String::push ](s: &mut String, c: char)
    ensures
        final(s)@ == old(s)@.push(c),
;

/// `str == str` of the standard library compares two strings character by
/// character.
#[verifier::external_body]
pub(crate) fn str_equal(a: &str, b: &str) -> (r: bool)
    ensures
        r == (a@ == b@),
{
    a == b
}

/// The character of a digit below ten.
pub(crate) fn digit_to_char(d: u8) -> (c: char)
    requires
        d < 10,
    ensures
        c == digit_char(d as int),
{
    match d {
        0 => '0',
        1 => '1',
        2 => '2',
        3 => '3',
        4 => '4',
        5 => '5',
        6 => '6',
        7 => '7',
        8 => '8',
        _ => '9',
    }
}

/// The decimal digits of `n` as a vector of characters.
pub fn decimal_digits(n: u128) -> (digits: Vec<char>)
    ensures
        digits@ == decimal(n as nat),
{
    let mut reversed: Vec<char> = Vec::new();
    let mut m: u128 = n;
    let ghost mut tail: Seq<char> = Seq::empty();
    while m >= 10
        invariant
            decimal(n as nat) == decimal(m as nat) + tail,
            tail.len() == reversed.len(),
            forall|i: int| 0 <= i < tail.len() ==> tail[i] == reversed@[tail.len() - 1 - i],
        decreases m,
    {
        let d: u8 = (m % 10) as u8;
        let c = digit_to_char(d);
        proof {
            let ghost_tail = seq![c] + tail;
            assert(decimal(m as nat) == decimal((m / 10) as nat).push(c));
            assert(decimal(m as nat) + tail =~= decimal((m / 10) as nat) + ghost_tail);
            tail = ghost_tail;
        }
        reversed.push(c);
        m = m / 10;
    }
    let last = digit_to_char(m as u8);
    reversed.push(last);
    proof {
        assert(decimal(m as nat) == seq![last]);
        tail = seq![last] + tail;
        assert(decimal(n as nat) =~= tail);
    }
    let mut digits: Vec<char> = Vec::new();
    let mut k: usize = reversed.len();
    while k > 0
        invariant
            k <= reversed.len(),
            tail.len() == reversed.len(),
            forall|i: int| 0 <= i < tail.len() ==> tail[i] == reversed@[tail.len() - 1 - i],
            digits@ == tail.subrange(0, reversed.len() - k),
        decreases k,
    {
        k = k - 1;
        digits.push(reversed[k]);
        assert(digits@ =~= tail.subrange(0, reversed.len() - k));
    }
    assert(digits@ =~= tail);
    digits
}

/// Appends the decimal digits of `n` to `out`.
pub fn push_decimal(out: &mut String, n: u128)
    ensures
        final(out)@ == old(out)@ + decimal(n as nat),
{
    let digits = decimal_digits(n);
    push_chars(out, &digits);
}

/// Appends the characters of `chars` to `out`, in order.
pub fn push_chars(out: &mut String, chars: &Vec<char>)
    ensures
        final(out)@ == old(out)@ + chars@,
{
    let mut i: usize = 0;
    while i < chars.len()
        invariant
            i <= chars.len(),
            out@ == old(out)@ + chars@.subrange(0, i as int),
        decreases chars.len() - i,
    {
        out.push(chars[i]);
        i = i + 1;
        assert(out@ =~= old(out)@ + chars@.subrange(0, i as int));
    }
    assert(chars@.subrange(0, i as int) =~= chars@);
}

/// Appends `n` in decimal, with zeros in front up to `width` characters.
pub fn push_zero_padded(out: &mut String, n: u128, width: usize)
    ensures
        final(out)@ == old(out)@ + zero_padded(n as nat, width as nat),
{
    let digits = decimal_digits(n);
    let mut k: usize = digits.len();
    while k < width
        invariant
            digits.len() <= k,
            k <= width || k == digits.len(),
            out@ == old(out)@ + zeros((k - digits.len()) as nat),
        decreases width - k,
    {
        out.push('0');
        k = k + 1;
        assert(out@ =~= old(out)@ + zeros((k - digits.len()) as nat));
    }
    push_chars(out, &digits);
    assert(final(out)@ =~= old(out)@ + zero_padded(n as nat, width as nat));
}

/// Appends a signed integer in decimal.
pub fn push_signed_decimal(out: &mut String, v: i128)
    ensures
        final(out)@ == old(out)@ + signed_decimal(v as int),
{
    if v < 0 {
        out.push('-');
        push_decimal(out, magnitude_wide(v));
        assert(final(out)@ =~= old(out)@ + signed_decimal(v as int));
    } else {
        push_decimal(out, v as u128);
    }
}

/// Appends a signed integer padded with zeros to `width` characters in all.
pub fn push_signed_zero_padded(out: &mut String, v: i128, width: usize)
    ensures
        final(out)@ == old(out)@ + signed_zero_padded(v as int, width as nat),
{
    if v < 0 {
        out.push('-');
        let rest: usize = if width > 0 {
            width - 1
        } else {
            0
        };
        push_zero_padded(out, magnitude_wide(v), rest);
        assert(final(out)@ =~= old(out)@ + signed_zero_padded(v as int, width as nat));
    } else {
        push_zero_padded(out, v as u128, width);
    }
}

/// Magnitude of a 128-bit integer.
pub fn magnitude_wide(v: i128) -> (r: u128)
    ensures
        r == crate::arith::abs_int(v as int),
{
    if v >= 0 {
        v as u128
    } else if v == i128::MIN {
        170_141_183_460_469_231_731_687_303_715_884_105_728u128
    } else {
        (-v) as u128
    }
}

/// The texts of a sequence of strings.
pub open spec fn texts(strings: Seq<String>) -> Seq<Seq<char>> {
    strings.map_values(|s: String| s@)
}

/// The parts in a row, with `separator` between each two.
pub open spec fn joined(parts: Seq<Seq<char>>, separator: Seq<char>) -> Seq<char>
    decreases parts.len(),
{
    if parts.len() == 0 {
        Seq::<char>::empty()
    } else if parts.len() == 1 {
        parts[0]
    } else {
        parts[0] + separator + joined(parts.drop_first(), separator)
    }
}

/// The strings in a row, with `separator` between each two.
pub fn join_strings(parts: &Vec<String>, separator: &str) -> (r: String)
    ensures
        r@ == joined(texts(parts@), separator@),
{
    let n = parts.len();
    let ghost all = texts(parts@);
    let mut out = String::new();
    let mut i: usize = 0;
    assert(all.subrange(0, n as int) =~= all);
    while i < n
        invariant
            i <= n,
            n == parts.len(),
            all == texts(parts@),
            joined(all, separator@) == out@ + joined(all.subrange(i as int, n as int), separator@),
        decreases n - i,
    {
        let ghost rest = all.subrange(i as int, n as int);
        let ghost before = out@;
        assert(rest[0] == parts@[i as int]@);
        assert(rest.drop_first() =~= all.subrange(i + 1, n as int));
        out.append(parts[i].as_str());
        if n - i > 1 {
            out.append(separator);
        }
        assert(before + joined(rest, separator@) =~= out@ + joined(
            rest.drop_first(),
            separator@,
        ));
        i = i + 1;
    }
    assert(out@ + joined(all.subrange(n as int, n as int), separator@) =~= out@);
    out
}

/// The characters of a string.
pub fn chars_of(s: &str) -> (r: Vec<char>)
    ensures
        r@ == s@,
{
    let n = s.unicode_len();
    let mut chars: Vec<char> = Vec::new();
    let mut i: usize = 0;
    while i < n
        invariant
            i <= n,
            n == s@.len(),
            chars@ == s@.subrange(0, i as int),
        decreases n - i,
    {
        chars.push(s.get_char(i));
        i = i + 1;
        assert(chars@ =~= s@.subrange(0, i as int));
    }
    assert(s@.subrange(0, n as int) =~= s@);
    chars
}

/// A fresh string holding the same characters as `s`.
pub fn owned(s: &str) -> (r: String)
    ensures
        r@ == s@,
{
    String::from_str(s)
}

} // verus!
