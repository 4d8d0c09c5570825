//! Renderings of a duration: the canonical form in seconds and a form in
//! English words.

use vstd::prelude::*;
use vstd::string::StringExecFns;

use crate::arith::{abs_int, magnitude};
use crate::duration::Duration;
use crate::duration_data::DurationData;
use crate::duration_units::unit_text;
use crate::text::{
    decimal, fraction_digits, owned, push_decimal, push_zero_padded, texts,
};

verus! {

/// One unit of the English form: nothing for a zero count, else its text.
pub open spec fn readable_part(value: u64, name: Seq<char>) -> Seq<Seq<char>> {
    if value == 0 {
        Seq::<Seq<char>>::empty()
    } else {
        seq![unit_text(value as nat, name)]
    }
}

/// The units of the English form that are not zero, largest first.
pub open spec fn readable_parts(data: DurationData) -> Seq<Seq<char>> {
    readable_part(data.months.value, "month"@) + readable_part(data.days.value, "day"@)
        + readable_part(data.hours.value, "hour"@) + readable_part(data.minutes.value, "minute"@)
        + readable_part(data.seconds.value, "second"@)
}

/// The parts in a row: spaces between them, but "and" between the last two.
pub open spec fn join_parts(parts: Seq<Seq<char>>) -> Seq<char>
    decreases parts.len(),
{
    if parts.len() == 0 {
        Seq::<char>::empty()
    } else if parts.len() == 1 {
        parts[0]
    } else if parts.len() == 2 {
        parts[0] + " and "@ + parts[1]
    } else {
        parts[0] + seq![' '] + join_parts(parts.drop_first())
    }
}

/// The English form of a duration taken apart: "0 seconds" when every unit
/// is zero, else the joined parts, after "- " for a negative duration.
pub open spec fn readable_text(data: DurationData) -> Seq<char> {
    if readable_parts(data).len() == 0 {
        "0 seconds"@
    } else if data.is_negative {
        "- "@ + join_parts(readable_parts(data))
    } else {
        join_parts(readable_parts(data))
    }
}

/// Appends a part to the list if there is one.
fn push_part(parts: &mut Vec<String>, part: Option<String>)
    ensures
        texts(final(parts)@) == texts(old(parts)@) + (match part {
            Some(s) => seq![s@],
            None => Seq::<Seq<char>>::empty(),
        }),
{
    match part {
        Some(s) => {
            parts.push(s);
            assert(texts(final(parts)@) =~= texts(old(parts)@) + seq![s@]);
        },
        None => {
            assert(texts(final(parts)@) =~= texts(old(parts)@) + Seq::<Seq<char>>::empty());
        },
    }
}

/// Appends the parts in a row; see [`join_parts`].
fn push_joined(out: &mut String, parts: &Vec<String>)
    ensures
        final(out)@ == old(out)@ + join_parts(texts(parts@)),
{
    let n = parts.len();
    let ghost all = texts(parts@);
    let mut i: usize = 0;
    assert(all.subrange(0, n as int) =~= all);
    while i < n
        invariant
            i <= n,
            n == parts.len(),
            all == texts(parts@),
            old(out)@ + join_parts(all) == out@ + join_parts(all.subrange(i as int, n as int)),
        decreases n - i,
    {
        let ghost rest = all.subrange(i as int, n as int);
        let ghost before = out@;
        assert(rest[0] == parts@[i as int]@);
        assert(rest.drop_first() =~= all.subrange(i + 1, n as int));
        out.append(parts[i].as_str());
        if n - i == 2 {
            out.append(" and ");
            assert(rest.drop_first().len() == 1);
            assert(join_parts(rest.drop_first()) == rest[1]);
            assert(before + join_parts(rest) =~= out@ + join_parts(rest.drop_first()));
        } else if n - i > 2 {
            out.push(' ');
            assert(before + join_parts(rest) =~= out@ + join_parts(rest.drop_first()));
        } else {
            assert(before + join_parts(rest) =~= out@ + join_parts(rest.drop_first()));
        }
        i = i + 1;
    }
    assert(out@ + join_parts(all.subrange(n as int, n as int)) =~= out@);
}

impl Duration {
    /// The canonical form: a minus sign for a negative duration, the whole
    /// seconds, a point and the fraction without zeros at its end where
    /// there is a fraction, and the letter `s`. The duration is taken in
    /// normal form.
    pub open spec fn canonical_text(self) -> Seq<char> {
        let normal = self.spec_normalized();
        let sign = if normal.seconds < 0 || normal.nanos < 0 {
            seq!['-']
        } else {
            Seq::<char>::empty()
        };
        let whole = decimal(abs_int(normal.seconds as int) as nat);
        if normal.nanos != 0 {
            sign + whole + seq!['.'] + fraction_digits(abs_int(normal.nanos as int) as nat, 9)
                + seq!['s']
        } else {
            sign + whole + seq!['s']
        }
    }

    /// The duration in its canonical form, such as "10.5s".
    #[must_use]
    pub fn to_string(&self) -> (r: String)
        ensures
            r@ == self.canonical_text(),
    {
        let normal = self.normalized();
        let mut out = String::new();
        if normal.seconds < 0 || normal.nanos < 0 {
            out.push('-');
        }
        push_decimal(&mut out, magnitude(normal.seconds) as u128);
        if normal.nanos != 0 {
            let mut rest: u64 = magnitude(normal.nanos as i64);
            let mut width: usize = 9;
            while width > 0 && rest % 10 == 0
                invariant
                    fraction_digits(rest as nat, width as nat) == fraction_digits(
                        abs_int(normal.nanos as int) as nat,
                        9,
                    ),
                decreases width,
            {
                rest = rest / 10;
                width = width - 1;
            }
            out.push('.');
            push_zero_padded(&mut out, rest as u128, width);
        }
        out.push('s');
        assert(out@ =~= self.canonical_text());
        out
    }

    /// The duration in English words, such as "1 hour 1 minute and 1
    /// second": months, days, hours, minutes and seconds, without the
    /// units that are zero. Nanoseconds are left out.
    #[must_use]
    pub fn to_human_readable_string(&self) -> (r: String)
        ensures
            r@ == readable_text(self.spec_data()),
    {
        let data = self.get_data();
        let mut parts: Vec<String> = Vec::new();
        assert(texts(parts@) =~= Seq::<Seq<char>>::empty());
        push_part(&mut parts, data.months.format_if_nonzero());
        push_part(&mut parts, data.days.format_if_nonzero());
        push_part(&mut parts, data.hours.format_if_nonzero());
        push_part(&mut parts, data.minutes.format_if_nonzero());
        push_part(&mut parts, data.seconds.format_if_nonzero());
        assert(texts(parts@) =~= readable_parts(data));
        if parts.len() == 0 {
            return owned("0 seconds");
        }
        let mut out = String::new();
        if data.is_negative {
            out.append("- ");
        }
        push_joined(&mut out, &parts);
        assert(out@ =~= readable_text(data));
        out
    }
}

} // verus!
