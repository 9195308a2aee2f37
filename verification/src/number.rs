//! Decimal numbers read from text, as `str::parse` reads them.

use crate::text::{decimal, digit_char, padded2, padded4, signed_decimal};
use vstd::prelude::*;

verus! {

/// Whether a character is a decimal digit.
pub open spec fn is_digit(c: char) -> bool {
    0x30 <= c as u32 && c as u32 <= 0x39
}

/// The value of a decimal digit.
pub open spec fn digit_value(c: char) -> nat {
    (c as u32 - 0x30) as nat
}

/// Whether every character of a text is a decimal digit.
pub open spec fn all_digits(s: Seq<char>) -> bool {
    forall|i: int| 0 <= i < s.len() ==> is_digit(#[trigger] s[i])
}

/// The number that a text of digits writes.
pub open spec fn digits_value(s: Seq<char>) -> nat
    decreases s.len(),
{
    if s.len() == 0 {
        0
    } else {
        digits_value(s.drop_last()) * 10 + digit_value(s.last())
    }
}

/// The digits of a text that may begin with `+`.
pub open spec fn after_plus(s: Seq<char>) -> Seq<char> {
    if s.len() > 0 && s[0] == '+' {
        s.drop_first()
    } else {
        s
    }
}

/// What a text reads as where a number from 0 up to `max` is wanted: an
/// optional `+`, then one digit or more and nothing else.
pub open spec fn parse_unsigned(s: Seq<char>, max: nat) -> Option<nat> {
    let digits = after_plus(s);
    if digits.len() > 0 && all_digits(digits) && digits_value(digits) <= max {
        Some(digits_value(digits))
    } else {
        None
    }
}

/// What a text reads as where a number from `-2^63` up to `2^63 - 1` is
/// wanted: an optional `+` or `-`, then one digit or more and nothing else.
pub open spec fn parse_i64(s: Seq<char>) -> Option<int> {
    if s.len() > 0 && s[0] == '-' {
        let digits = s.drop_first();
        if digits.len() > 0 && all_digits(digits) && digits_value(digits) <= 0x8000_0000_0000_0000 {
            Some(-(digits_value(digits) as int))
        } else {
            None
        }
    } else {
        match parse_unsigned(s, 0x7fff_ffff_ffff_ffff) {
            Some(v) => Some(v as int),
            None => None,
        }
    }
}

/// A text of digits writes no smaller a number than any of its beginnings.
pub proof fn lemma_digits_value_grows(s: Seq<char>, i: int)
    requires
        0 <= i <= s.len(),
    ensures
        digits_value(s.subrange(0, i)) <= digits_value(s),
    decreases s.len() - i,
{
    if i < s.len() {
        lemma_digits_value_grows(s, i + 1);
        assert(s.subrange(0, i + 1).drop_last() =~= s.subrange(0, i));
    } else {
        assert(s.subrange(0, i) =~= s);
    }
}

/// What is written in decimal is made of digits, at least one, and writes
/// the number.
pub proof fn lemma_decimal_is_digits(n: nat)
    ensures
        decimal(n).len() >= 1,
        all_digits(decimal(n)),
        digits_value(decimal(n)) == n,
    decreases n,
{
    if n < 10 {
        assert(decimal(n).drop_last() =~= Seq::<char>::empty());
        assert(digits_value(decimal(n).drop_last()) == 0);
        assert(digit_value(digit_char(n as int)) == n);
    } else {
        lemma_decimal_is_digits(n / 10);
        let head = decimal(n / 10);
        let d = digit_char((n % 10) as int);
        assert(decimal(n) == head.push(d));
        assert(decimal(n).drop_last() =~= head);
        assert(digit_value(d) == n % 10);
        assert forall|i: int| 0 <= i < decimal(n).len() implies is_digit(
            #[trigger] decimal(n)[i],
        ) by {
            if i < head.len() {
                assert(decimal(n)[i] == head[i]);
            }
        }
    }
}

proof fn lemma_decimal_len(n: nat)
    ensures
        decimal(n).len() >= 1,
        n >= 10 ==> decimal(n).len() >= 2,
        n >= 100 ==> decimal(n).len() >= 3,
        n >= 1000 ==> decimal(n).len() >= 4,
    decreases n,
{
    if n >= 10 {
        lemma_decimal_len(n / 10);
    }
}

/// What is written with leading zeros is made of digits too, at least two
/// or four, and writes the number.
pub proof fn lemma_padded_is_digits(n: nat)
    ensures
        padded2(n).len() >= 2,
        all_digits(padded2(n)),
        digits_value(padded2(n)) == n,
        padded4(n).len() >= 4,
        all_digits(padded4(n)),
{
    lemma_decimal_is_digits(n);
    lemma_decimal_len(n);
    let d = decimal(n);
    if n < 10 {
        let p = padded2(n);
        assert(p =~= seq!['0', digit_char(n as int)]);
        assert(p.drop_last() =~= seq!['0']);
        assert(seq!['0'].drop_last() =~= Seq::<char>::empty());
        assert(digits_value(seq!['0'].drop_last()) == 0);
        assert(seq!['0'].last() == '0');
        assert(digit_value('0') == 0);
        assert(digits_value(seq!['0']) == 0);
        assert(digit_value(digit_char(n as int)) == n);
    }
    let q = padded4(n);
    assert forall|i: int| 0 <= i < q.len() implies is_digit(#[trigger] q[i]) by {
        let zeros = q.len() - d.len();
        if i >= zeros {
            assert(q[i] == d[i - zeros]);
        }
    }
}

/// What is written reads back: a number of 64 bits written in decimal, with
/// its sign where it is negative, reads as that number; and a natural number
/// written in decimal reads as itself wherever it fits.
pub proof fn lemma_written_reads_back(n: int, m: nat, max: nat)
    requires
        i64::MIN <= n <= i64::MAX,
        m <= max,
    ensures
        parse_i64(signed_decimal(n)) == Some(n),
        parse_unsigned(decimal(m), max) == Some(m),
{
    lemma_decimal_is_digits(m);
    assert(is_digit(decimal(m)[0]));
    assert(after_plus(decimal(m)) == decimal(m));
    if n < 0 {
        let digits = decimal((-n) as nat);
        lemma_decimal_is_digits((-n) as nat);
        assert(signed_decimal(n).drop_first() =~= digits);
        assert(signed_decimal(n)[0] == '-');
    } else {
        let digits = decimal(n as nat);
        lemma_decimal_is_digits(n as nat);
        assert(is_digit(digits[0]));
        assert(after_plus(digits) == digits);
    }
}

/// Reads the digits from `from` on as a number of at most `max`; `None`
/// where there is no digit, another character, or a larger number.
pub(crate) fn read_digits(s: &Vec<char>, from: usize, max: u64) -> (r: Option<u64>)
    requires
        from <= s.len(),
    ensures
        r matches Some(v) ==> s.len() > from && all_digits(s@.subrange(from as int, s.len() as int))
            && v == digits_value(s@.subrange(from as int, s.len() as int)) && v <= max,
        r is None ==> !(s.len() > from && all_digits(s@.subrange(from as int, s.len() as int))
            && digits_value(s@.subrange(from as int, s.len() as int)) <= max),
{
    let ghost digits = s@.subrange(from as int, s.len() as int);
    if from >= s.len() {
        return None;
    }
    let mut value: u64 = 0;
    let mut i: usize = from;
    while i < s.len()
        invariant
            from <= i <= s.len(),
            digits == s@.subrange(from as int, s.len() as int),
            all_digits(digits.subrange(0, i - from)),
            value == digits_value(digits.subrange(0, i - from)),
            value <= max,
        decreases s.len() - i,
    {
        let c = s[i];
        let n = c as u32;
        if n < 0x30 || n > 0x39 {
            assert(!is_digit(digits[i - from]));
            return None;
        }
        assert(digits.subrange(0, i - from + 1).drop_last() =~= digits.subrange(0, i - from));
        assert(digits.subrange(0, i - from + 1).last() == c);
        let next: u128 = value as u128 * 10 + (n - 0x30) as u128;
        if next > max as u128 {
            proof {
                lemma_digits_value_grows(digits, i - from + 1);
            }
            return None;
        }
        assert forall|k: int| 0 <= k < i - from + 1 implies is_digit(
            #[trigger] digits.subrange(0, i - from + 1)[k],
        ) by {
            if k < i - from {
                assert(digits.subrange(0, i - from)[k] == digits[k]);
            }
        }
        value = next as u64;
        i = i + 1;
    }
    assert(digits.subrange(0, i - from) =~= digits);
    Some(value)
}

/// Reads a text as a number from 0 up to `max`.
pub fn read_unsigned(s: &Vec<char>, max: u64) -> (r: Option<u64>)
    ensures
        match r {
            Some(v) => Some(v as nat),
            None => None,
        } == parse_unsigned(s@, max as nat),
{
    if s.len() > 0 && s[0] == '+' {
        assert(after_plus(s@) =~= s@.subrange(1, s.len() as int));
        read_digits(s, 1, max)
    } else {
        assert(after_plus(s@) =~= s@.subrange(0, s.len() as int));
        read_digits(s, 0, max)
    }
}

/// Reads a text as a signed number of 64 bits.
pub fn read_i64(s: &Vec<char>) -> (r: Option<i64>)
    ensures
        match r {
            Some(v) => Some(v as int),
            None => None,
        } == parse_i64(s@),
{
    if s.len() > 0 && s[0] == '-' {
        assert(s@.drop_first() =~= s@.subrange(1, s.len() as int));
        match read_digits(s, 1, 0x8000_0000_0000_0000) {
            Some(v) => {
                if v == 0x8000_0000_0000_0000 {
                    Some(i64::MIN)
                } else {
                    Some(-(v as i64))
                }
            },
            None => None,
        }
    } else {
        match read_unsigned(s, 0x7fff_ffff_ffff_ffff) {
            Some(v) => Some(v as i64),
            None => None,
        }
    }
}

} // verus!
