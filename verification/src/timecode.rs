//! `mm:ss.fff` timecodes as the editor shows them.
//!
//! A time is shown as its whole minutes, zero-padded to at least two
//! digits, a colon, the seconds within the minute on two digits, a dot and
//! the milliseconds zero-padded to at least three digits.

use vstd::prelude::*;
use crate::outside::push_char;

verus! {

/// The decimal digit `d` (for `d < 10`) as a character.
pub open spec fn digit_char(d: nat) -> char {
    ((48 + d) as u8) as char
}

/// The decimal numeral of `n`, without leading zeros (`0` is `"0"`).
pub open spec fn decimal(n: nat) -> Seq<char>
    decreases n,
{
    if n < 10 {
        seq![digit_char(n)]
    } else {
        decimal(n / 10).push(digit_char(n % 10))
    }
}

/// `k` zero characters.
pub open spec fn zeros(k: nat) -> Seq<char> {
    Seq::new(k, |i: int| '0')
}

/// The decimal numeral of `n`, padded on the left with zeros to at least
/// `width` characters.
pub open spec fn zero_padded(n: nat, width: nat) -> Seq<char> {
    let d = decimal(n);
    if d.len() >= width {
        d
    } else {
        zeros((width - d.len()) as nat) + d
    }
}

/// The timecode of a time of `total_secs` whole seconds and `millis`
/// milliseconds.
pub open spec fn timecode_text(total_secs: nat, millis: nat) -> Seq<char> {
    zero_padded(total_secs / 60, 2) + seq![':'] + zero_padded(total_secs % 60, 2) + seq!['.']
        + zero_padded(millis, 3)
}

/// The value of a string of decimal digits (most significant first).
pub open spec fn digits_value(s: Seq<char>) -> nat
    decreases s.len(),
{
    if s.len() == 0 {
        0
    } else {
        digits_value(s.drop_last()) * 10 + ((s.last() as u32) - 48) as nat
    }
}

/// Every character of `s` is a decimal digit.
pub open spec fn all_digits(s: Seq<char>) -> bool {
    forall|i: int| 0 <= i < s.len() ==> '0' <= #[trigger] s[i] && s[i] <= '9'
}

/// The number of decimal digits of `n`.
pub open spec fn digit_count(n: nat) -> nat
    decreases n,
{
    if n < 10 {
        1
    } else {
        digit_count(n / 10) + 1
    }
}

proof fn lemma_decimal_len(n: nat)
    ensures
        decimal(n).len() == digit_count(n),
        decimal(n).len() >= 1,
    decreases n,
{
    if n >= 10 {
        lemma_decimal_len(n / 10);
    }
}

/// The decimal numeral of `n` is made of digits and reads back as `n`.
pub proof fn lemma_decimal_reads_back(n: nat)
    ensures
        all_digits(decimal(n)),
        digits_value(decimal(n)) == n,
        decimal(n).len() == digit_count(n),
    decreases n,
{
    lemma_decimal_len(n);
    if n >= 10 {
        lemma_decimal_reads_back(n / 10);
        let d = decimal(n / 10);
        let c = digit_char(n % 10);
        assert(decimal(n).drop_last() =~= d);
        assert(decimal(n).last() == c);
        assert((c as u32) == 48 + n % 10);
        assert(digits_value(decimal(n)) == digits_value(d) * 10 + ((c as u32) - 48) as nat);
        assert((n / 10) * 10 + n % 10 == n);
    } else {
        let c = digit_char(n);
        assert(decimal(n).drop_last() =~= Seq::<char>::empty());
        assert((c as u32) == 48 + n);
        assert(digits_value(decimal(n)) == digits_value(Seq::<char>::empty()) * 10 + ((c as u32) - 48) as nat);
    }
}

proof fn lemma_zeros_value(k: nat)
    ensures
        digits_value(zeros(k)) == 0,
        all_digits(zeros(k)),
    decreases k,
{
    if k > 0 {
        assert(zeros(k).drop_last() =~= zeros((k - 1) as nat));
        lemma_zeros_value((k - 1) as nat);
    }
}

/// Leading zeros do not change the value of a numeral.
proof fn lemma_leading_zeros(k: nat, s: Seq<char>)
    ensures
        digits_value(zeros(k) + s) == digits_value(s),
    decreases s.len(),
{
    if s.len() == 0 {
        assert(zeros(k) + s =~= zeros(k));
        lemma_zeros_value(k);
    } else {
        assert((zeros(k) + s).drop_last() =~= zeros(k) + s.drop_last());
        assert((zeros(k) + s).last() == s.last());
        lemma_leading_zeros(k, s.drop_last());
    }
}

/// A zero-padded numeral is made of digits, is at least `width` long, is
/// no longer than needed, and reads back as the number it shows.
pub proof fn lemma_zero_padded_reads_back(n: nat, width: nat)
    ensures
        all_digits(zero_padded(n, width)),
        digits_value(zero_padded(n, width)) == n,
        zero_padded(n, width).len() == if digit_count(n) >= width {
            digit_count(n)
        } else {
            width
        },
{
    lemma_decimal_reads_back(n);
    let d = decimal(n);
    if d.len() < width {
        let k = (width - d.len()) as nat;
        lemma_leading_zeros(k, d);
        lemma_zeros_value(k);
        assert forall|i: int| 0 <= i < zero_padded(n, width).len() implies '0' <= #[trigger] zero_padded(n, width)[i]
            && zero_padded(n, width)[i] <= '9' by {
            if i < k {
                assert(zero_padded(n, width)[i] == zeros(k)[i]);
            } else {
                assert(zero_padded(n, width)[i] == d[i - k]);
            }
        }
    }
}

/// A number below `10^k` has at most `k` digits; one of at least `10^(k-1)`
/// has at least `k`.
proof fn lemma_digit_count_small(n: nat)
    ensures
        n < 10 ==> digit_count(n) == 1,
        10 <= n < 100 ==> digit_count(n) == 2,
        100 <= n < 1000 ==> digit_count(n) == 3,
{
    if n >= 10 {
        assert(digit_count(n) == digit_count(n / 10) + 1);
        if n >= 100 {
            assert(digit_count(n / 10) == digit_count(n / 100) + 1);
            assert(n / 10 >= 10);
            if n < 1000 {
                assert(n / 100 < 10);
            }
        } else {
            assert(n / 10 < 10);
        }
    }
}

/// The timecode shows the minutes, a colon, the seconds of the minute on
/// exactly two digits, a dot and the milliseconds on exactly three digits
/// (for a millisecond part below a second); each field reads back as the
/// number it stands for, so the whole seconds are `minutes * 60 + seconds`.
/// Below 100 minutes the timecode is exactly `mm:ss.fff`, nine characters.
pub proof fn law_timecode_reads_back(total_secs: nat, millis: nat)
    requires
        millis < 1000,
    ensures
        ({
            let t = timecode_text(total_secs, millis);
            let m = zero_padded(total_secs / 60, 2).len() as int;
            &&& m >= 2
            &&& t.len() == m + 7
            &&& t[m] == ':'
            &&& t[m + 3] == '.'
            &&& all_digits(t.subrange(0, m))
            &&& all_digits(t.subrange(m + 1, m + 3))
            &&& all_digits(t.subrange(m + 4, m + 7))
            &&& digits_value(t.subrange(0, m)) == total_secs / 60
            &&& digits_value(t.subrange(m + 1, m + 3)) == total_secs % 60
            &&& digits_value(t.subrange(m + 4, m + 7)) == millis
            &&& digits_value(t.subrange(0, m)) * 60 + digits_value(t.subrange(m + 1, m + 3))
                == total_secs
            &&& (total_secs < 6000 ==> t.len() == 9)
        }),
{
    let mins = zero_padded(total_secs / 60, 2);
    let secs = zero_padded(total_secs % 60, 2);
    let ms = zero_padded(millis, 3);
    lemma_zero_padded_reads_back(total_secs / 60, 2);
    lemma_zero_padded_reads_back(total_secs % 60, 2);
    lemma_zero_padded_reads_back(millis, 3);
    lemma_digit_count_small(total_secs / 60);
    lemma_digit_count_small(total_secs % 60);
    lemma_digit_count_small(millis);
    let t = timecode_text(total_secs, millis);
    let m = mins.len() as int;
    assert(t =~= mins + seq![':'] + secs + seq!['.'] + ms);
    assert(t.subrange(0, m) =~= mins);
    assert(t.subrange(m + 1, m + 3) =~= secs);
    assert(t.subrange(m + 4, m + 7) =~= ms);
}

fn digit_to_char(d: u64) -> (c: char)
    requires
        d < 10,
    ensures
        c == digit_char(d as nat),
{
    let b: u8 = 48u8 + (d as u8);
    b as char
}

pub(crate) fn push_decimal(out: &mut String, n: u64)
    ensures
        final(out)@ == old(out)@ + decimal(n as nat),
    decreases n,
{
    if n >= 10 {
        push_decimal(out, n / 10);
    }
    let c = digit_to_char(n % 10);
    push_char(out, c);
    proof {
        if n >= 10 {
            assert(decimal(n as nat) == decimal((n / 10) as nat).push(digit_char((n % 10) as nat)));
        } else {
            assert(n % 10 == n);
        }
    }
}

fn count_digits(n: u64) -> (c: u64)
    ensures
        c as nat == digit_count(n as nat),
        1 <= c <= 20,
    decreases n,
{
    if n < 10 {
        1
    } else {
        let c = count_digits(n / 10);
        proof {
            reveal_with_fuel(pow10, 20);
            lemma_digit_count_le((n / 10) as nat, 19);
        }
        c + 1
    }
}

/// `digit_count(n) <= k` whenever `n < 10^k`.
proof fn lemma_digit_count_le(n: nat, k: nat)
    requires
        n < pow10(k),
        k >= 1,
    ensures
        digit_count(n) <= k,
    decreases n,
{
    if n >= 10 {
        assert(pow10(k) == 10 * pow10((k - 1) as nat));
        if k == 1 {
            assert(pow10(0) == 1);
        } else {
            assert(n / 10 < pow10((k - 1) as nat));
            lemma_digit_count_le(n / 10, (k - 1) as nat);
        }
    }
}

pub open spec fn pow10(k: nat) -> nat
    decreases k,
{
    if k == 0 {
        1
    } else {
        10 * pow10((k - 1) as nat)
    }
}

fn push_zeros(out: &mut String, k: u64)
    ensures
        final(out)@ == old(out)@ + zeros(k as nat),
{
    let mut i: u64 = 0;
    while i < k
        invariant
            i <= k,
            out@ == old(out)@ + zeros(i as nat),
        decreases k - i,
    {
        push_char(out, '0');
        i = i + 1;
        assert(zeros(i as nat) =~= zeros((i - 1) as nat).push('0'));
    }
}

fn push_zero_padded(out: &mut String, n: u64, width: u64)
    ensures
        final(out)@ == old(out)@ + zero_padded(n as nat, width as nat),
{
    let len = count_digits(n);
    proof {
        lemma_decimal_len(n as nat);
    }
    if len < width {
        push_zeros(out, width - len);
        push_decimal(out, n);
        assert(out@ == old(out)@ + (zeros((width - len) as nat) + decimal(n as nat)));
    } else {
        push_decimal(out, n);
    }
}

/// Formats a time given as whole seconds and milliseconds as `mm:ss.fff`:
/// the minutes and the seconds within the minute on at least two digits,
/// the milliseconds on at least three.
pub fn format_timecode_parts(total_secs: u64, millis: u64) -> (s: String)
    ensures
        s@ == timecode_text(total_secs as nat, millis as nat),
{
    let mut out = String::new();
    push_zero_padded(&mut out, total_secs / 60, 2);
    push_char(&mut out, ':');
    push_zero_padded(&mut out, total_secs % 60, 2);
    push_char(&mut out, '.');
    push_zero_padded(&mut out, millis, 3);
    out
}

} // verus!
