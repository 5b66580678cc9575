use vstd::prelude::*;

use crate::model::PartialDate;
use crate::text::push_char;

verus! {

/// The decimal digit that stands for `d`, where `d < 10`.
pub open spec fn digit_char(d: nat) -> char {
    if d == 0 { '0' }
    else if d == 1 { '1' }
    else if d == 2 { '2' }
    else if d == 3 { '3' }
    else if d == 4 { '4' }
    else if d == 5 { '5' }
    else if d == 6 { '6' }
    else if d == 7 { '7' }
    else if d == 8 { '8' }
    else { '9' }
}

/// The decimal digits of `n`, without leading zeros.
pub open spec fn digits(n: nat) -> Seq<char>
    decreases n,
{
    if n < 10 {
        seq![digit_char(n)]
    } else {
        digits(n / 10).push(digit_char(n % 10))
    }
}

/// The digits of `n`, with zeros in front up to `width` characters.
pub open spec fn padded(n: nat, width: nat) -> Seq<char> {
    let d = digits(n);
    if d.len() >= width {
        d
    } else {
        Seq::new((width - d.len()) as nat, |i: int| '0') + d
    }
}

/// A year as at least four characters, a sign counting as one of them.
pub open spec fn year_text(y: int) -> Seq<char> {
    if y >= 0 {
        padded(y as nat, 4)
    } else {
        seq!['-'] + padded((-y) as nat, 3)
    }
}

/// A date as `YYYY-MM-DD`, `YYYY-MM` or `YYYY`, after the parts that are
/// known; empty for a day without a month.
pub open spec fn date_text(d: PartialDate) -> Seq<char> {
    match (d.month, d.day) {
        (Some(m), Some(day)) => year_text(d.year as int) + seq!['-'] + padded(m as nat, 2)
            + seq!['-'] + padded(day as nat, 2),
        (Some(m), None) => year_text(d.year as int) + seq!['-'] + padded(m as nat, 2),
        (None, None) => year_text(d.year as int),
        (None, Some(_)) => Seq::empty(),
    }
}

fn digit(d: u64) -> (c: char)
    requires
        d < 10,
    ensures
        c == digit_char(d as nat),
{
    if d == 0 { '0' }
    else if d == 1 { '1' }
    else if d == 2 { '2' }
    else if d == 3 { '3' }
    else if d == 4 { '4' }
    else if d == 5 { '5' }
    else if d == 6 { '6' }
    else if d == 7 { '7' }
    else if d == 8 { '8' }
    else { '9' }
}

fn digit_count(n: u64) -> (r: usize)
    ensures
        r == digits(n as nat).len(),
    decreases n,
{
    if n < 10 {
        1
    } else {
        let k = digit_count(n / 10);
        proof {
            lemma_digits_len_bound(n as nat / 10);
        }
        k + 1
    }
}

proof fn lemma_digits_len_bound(n: nat)
    requires
        n <= u64::MAX,
    ensures
        digits(n).len() <= 20,
{
    reveal_with_fuel(pow10, 21);
    assert(pow10(20) == 100000000000000000000nat);
    lemma_digits_len_pow(n, 20);
}

proof fn lemma_digits_len_pow(n: nat, k: nat)
    requires
        k >= 1,
        n < pow10(k),
    ensures
        digits(n).len() <= k,
    decreases k,
{
    if n >= 10 {
        assert(k >= 2) by {
            if k == 1 {
                assert(pow10(1) == 10 * pow10(0));
            }
        }
        assert(n / 10 < pow10((k - 1) as nat)) by {
            assert(pow10(k) == 10 * pow10((k - 1) as nat));
        }
        lemma_digits_len_pow(n / 10, (k - 1) as nat);
    }
}

spec fn pow10(k: nat) -> nat
    decreases k,
{
    if k == 0 { 1 } else { 10 * pow10((k - 1) as nat) }
}

fn push_digits(out: &mut String, n: u64)
    ensures
        final(out)@ == old(out)@ + digits(n as nat),
    decreases n,
{
    if n >= 10 {
        push_digits(out, n / 10);
    }
    push_char(out, digit(n % 10));
}

fn push_padded(out: &mut String, n: u64, width: usize)
    ensures
        final(out)@ == old(out)@ + padded(n as nat, width as nat),
{
    let k = digit_count(n);
    let ghost start = out@;
    if k < width {
        let mut i: usize = k;
        while i < width
            invariant
                k <= i <= width,
                out@ == start + Seq::new((i - k) as nat, |j: int| '0'),
            decreases width - i,
        {
            push_char(out, '0');
            assert(out@ =~= start + Seq::new((i + 1 - k) as nat, |j: int| '0'));
            i = i + 1;
        }
    }
    push_digits(out, n);
    assert(out@ =~= start + padded(n as nat, width as nat));
}

/// Writes a date in the canonical form of `date_text`.
pub fn format_date(d: &PartialDate) -> (r: String)
    ensures
        r@ == date_text(*d),
{
    let mut out = String::new();
    if d.month.is_none() && d.day.is_some() {
        return out;
    }
    if d.year >= 0 {
        push_padded(&mut out, d.year as u64, 4);
    } else {
        push_char(&mut out, '-');
        push_padded(&mut out, (0i64 - d.year as i64) as u64, 3);
    }
    match d.month {
        Some(m) => {
            push_char(&mut out, '-');
            push_padded(&mut out, m as u64, 2);
            match d.day {
                Some(day) => {
                    push_char(&mut out, '-');
                    push_padded(&mut out, day as u64, 2);
                },
                None => {},
            }
        },
        None => {},
    }
    out
}

} // verus!
