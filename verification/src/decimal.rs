//! Integers written in decimal, and decimal texts read back as integers.
//!
//! The grammar that is read is the one of the standard library's integer
//! parsing: an optional `+` or `-`, then one or more ASCII digits, and nothing
//! else. A text that fits the grammar but names a number outside the target
//! type is refused like any other malformed text.

use vstd::prelude::*;
use crate::chars::chars_of;

verus! {

/// Whether `c` is one of `'0'` to `'9'`.
pub open spec fn is_digit(c: char) -> bool {
    '0' <= c <= '9'
}

/// The number that the digit `c` stands for.
pub open spec fn digit_value(c: char) -> int {
    c as int - '0' as int
}

/// The digit that stands for `d`, for `0 <= d <= 9`.
pub open spec fn digit_char(d: int) -> char {
    (d + '0' as int) as char
}

/// Whether `s` is a non-empty run of digits.
pub open spec fn is_digits(s: Seq<char>) -> bool {
    &&& s.len() > 0
    &&& forall|i: int| 0 <= i < s.len() ==> is_digit(#[trigger] s[i])
}

/// The number that a run of digits denotes, most significant digit first.
pub open spec fn digits_value(s: Seq<char>) -> nat
    decreases s.len(),
{
    if s.len() == 0 {
        0
    } else {
        (digits_value(s.drop_last()) * 10 + digit_value(s.last())) as nat
    }
}

/// The integer that the text `s` denotes, if it denotes one.
pub open spec fn text_as_int(s: Seq<char>) -> Option<int> {
    if s.len() > 0 && s[0] == '-' {
        if is_digits(s.skip(1)) {
            Some(-(digits_value(s.skip(1)) as int))
        } else {
            None
        }
    } else if s.len() > 0 && s[0] == '+' {
        if is_digits(s.skip(1)) {
            Some(digits_value(s.skip(1)) as int)
        } else {
            None
        }
    } else if is_digits(s) {
        Some(digits_value(s) as int)
    } else {
        None
    }
}

/// The `i32` that the text `s` denotes, if it denotes one.
pub open spec fn text_as_i32(s: Seq<char>) -> Option<i32> {
    match text_as_int(s) {
        Some(n) => if i32::MIN <= n <= i32::MAX {
            Some(n as i32)
        } else {
            None
        },
        None => None,
    }
}

/// The `i64` that the text `s` denotes, if it denotes one.
pub open spec fn text_as_i64(s: Seq<char>) -> Option<i64> {
    match text_as_int(s) {
        Some(n) => if i64::MIN <= n <= i64::MAX {
            Some(n as i64)
        } else {
            None
        },
        None => None,
    }
}

/// The digits of `n`, without leading zeros; `0` is written `"0"`.
pub open spec fn decimal_nat(n: nat) -> Seq<char>
    decreases n,
{
    if n < 10 {
        seq![digit_char(n as int)]
    } else {
        decimal_nat(n / 10).push(digit_char((n % 10) as int))
    }
}

/// The decimal text of `n`: its digits, after a `-` if `n` is negative.
pub open spec fn decimal(n: int) -> Seq<char> {
    if n < 0 {
        seq!['-'] + decimal_nat((-n) as nat)
    } else {
        decimal_nat(n as nat)
    }
}

/// A run of digits that is cut short denotes no more than the whole run.
pub proof fn lemma_digits_value_prefix(s: Seq<char>, k: int)
    requires
        0 <= k <= s.len(),
        forall|i: int| 0 <= i < s.len() ==> is_digit(#[trigger] s[i]),
    ensures
        digits_value(s.take(k)) <= digits_value(s),
    decreases s.len() - k,
{
    if k == s.len() {
        assert(s.take(k) == s);
    } else {
        let t = s.take(k + 1);
        assert(t.drop_last() == s.take(k));
        assert(is_digit(t.last()));
        lemma_digits_value_prefix(s, k + 1);
    }
}

/// The digits of a number are digits, and denote that number.
pub proof fn lemma_decimal_nat_reads_back(n: nat)
    ensures
        is_digits(decimal_nat(n)),
        digits_value(decimal_nat(n)) == n,
    decreases n,
{
    let s = decimal_nat(n);
    if n < 10 {
        assert(s.drop_last() == Seq::<char>::empty());
        assert(digits_value(s.drop_last()) == 0);
    } else {
        lemma_decimal_nat_reads_back(n / 10);
        let head = decimal_nat(n / 10);
        assert(s.drop_last() == head);
        assert forall|i: int| 0 <= i < s.len() implies is_digit(#[trigger] s[i]) by {
            if i < head.len() {
                assert(s[i] == head[i]);
            }
        }
    }
}

/// Reading the decimal text of an integer gives that integer back.
pub proof fn lemma_decimal_reads_back(n: int)
    ensures
        text_as_int(decimal(n)) == Some(n),
{
    if n < 0 {
        let m = (-n) as nat;
        lemma_decimal_nat_reads_back(m);
        assert(decimal(n).skip(1) == decimal_nat(m));
    } else {
        lemma_decimal_nat_reads_back(n as nat);
        let s = decimal_nat(n as nat);
        assert(is_digit(s[0]));
    }
}

/// Reading the decimal text of an `i32` gives that `i32` back.
pub proof fn lemma_decimal_reads_back_i32(n: i32)
    ensures
        text_as_i32(decimal(n as int)) == Some(n),
{
    lemma_decimal_reads_back(n as int);
}

/// Reading the decimal text of an `i64` gives that `i64` back.
pub proof fn lemma_decimal_reads_back_i64(n: i64)
    ensures
        text_as_i64(decimal(n as int)) == Some(n),
{
    lemma_decimal_reads_back(n as int);
}

/// Appends the digits of `n` to `out`.
pub fn push_decimal_nat(out: &mut String, n: u64)
    ensures
        final(out)@ == old(out)@ + decimal_nat(n as nat),
    decreases n,
{
    if n >= 10 {
        push_decimal_nat(out, n / 10);
    }
    let d: u8 = (n % 10) as u8;
    let c: char = (d + 48u8) as char;
    assert(c == digit_char((n % 10) as int));
    out.push(c);
    assert(final(out)@ == old(out)@ + decimal_nat(n as nat)) by {
        if n >= 10 {
            assert(old(out)@ + decimal_nat((n / 10) as nat).push(c) == (old(out)@ + decimal_nat(
                (n / 10) as nat,
            )).push(c));
        } else {
            assert(old(out)@ + seq![c] == old(out)@.push(c));
        }
    }
}

/// The distance of `n` from zero.
fn magnitude(n: i64) -> (m: u64)
    ensures
        m == (if n < 0 { -(n as int) } else { n as int }),
{
    if n < 0 {
        let below: i64 = -(n + 1);
        below as u64 + 1
    } else {
        n as u64
    }
}

/// Appends the decimal text of `n` to `out`.
pub fn push_decimal(out: &mut String, n: i64)
    ensures
        final(out)@ == old(out)@ + decimal(n as int),
{
    let m = magnitude(n);
    if n < 0 {
        out.push('-');
        push_decimal_nat(out, m);
        assert(final(out)@ == old(out)@ + decimal(n as int)) by {
            assert(old(out)@.push('-') + decimal_nat(m as nat) == old(out)@ + (seq!['-']
                + decimal_nat(m as nat)));
        }
    } else {
        push_decimal_nat(out, m);
    }
}

/// The decimal text of `n`.
pub fn to_decimal(n: i64) -> (s: String)
    ensures
        s@ == decimal(n as int),
{
    let mut s = String::new();
    push_decimal(&mut s, n);
    assert(Seq::<char>::empty() + decimal(n as int) == decimal(n as int));
    s
}

/// What is read off a well-formed decimal text before its range is checked:
/// whether it began with `-`, and the number that its digits denote.
struct Reading {
    negative: bool,
    digits: u64,
}

/// Reads `v` as a decimal text whose digits denote at most `limit`.
fn read_decimal(v: &Vec<char>, limit: u64) -> (r: Option<Reading>)
    ensures
        match text_as_int(v@) {
            Some(n) => if -(limit as int) <= n <= limit as int {
                r == Some(
                    (Reading {
                        negative: v@[0] == '-',
                        digits: (if n < 0 { -n } else { n }) as u64,
                    }),
                )
            } else {
                r is None
            },
            None => r is None,
        },
{
    if v.len() == 0 {
        return None;
    }
    let negative: bool = v[0] == '-';
    let start: usize = if negative || v[0] == '+' { 1 } else { 0 };
    if start == v.len() {
        return None;
    }
    let ghost body = v@.skip(start as int);
    assert(start == 0 ==> body == v@);
    assert(body.take(0) == Seq::<char>::empty());
    let mut acc: u64 = 0;
    let mut i: usize = start;
    while i < v.len()
        invariant
            start <= i <= v.len(),
            body == v@.skip(start as int),
            body.len() > 0,
            negative == (v@[0] == '-'),
            text_as_int(v@) == (if is_digits(body) {
                Some(if negative { -(digits_value(body) as int) } else { digits_value(body) as int })
            } else {
                None
            }),
            forall|j: int| 0 <= j < i - start ==> is_digit(#[trigger] body[j]),
            acc == digits_value(body.take(i - start)),
            acc <= limit,
        decreases v.len() - i,
    {
        let c: char = v[i];
        assert(c == body[i - start]);
        if !('0' <= c && c <= '9') {
            assert(!is_digits(body));
            return None;
        }
        let d: u64 = (c as u32 - '0' as u32) as u64;
        let next: u128 = acc as u128 * 10 + d as u128;
        proof {
            let t = body.take(i - start + 1);
            assert(t.drop_last() == body.take(i - start));
            assert(t.last() == c);
            assert(digits_value(t) == next);
        }
        if next > limit as u128 {
            proof {
                if is_digits(body) {
                    lemma_digits_value_prefix(body, i - start + 1);
                }
            }
            return None;
        }
        acc = next as u64;
        i += 1;
    }
    assert(body.take(i - start) == body);
    Some(Reading { negative, digits: acc })
}

/// Reads `s` as an `i32`.
pub fn parse_i32(s: &str) -> (r: Option<i32>)
    ensures
        r == text_as_i32(s@),
{
    let v = chars_of(s);
    match read_decimal(&v, 2147483648u64) {
        Some(reading) => {
            if reading.negative {
                Some((-(reading.digits as i64)) as i32)
            } else if reading.digits <= 2147483647u64 {
                Some(reading.digits as i32)
            } else {
                None
            }
        },
        None => None,
    }
}

/// Reads `s` as an `i64`.
pub fn parse_i64(s: &str) -> (r: Option<i64>)
    ensures
        r == text_as_i64(s@),
{
    let v = chars_of(s);
    match read_decimal(&v, 9223372036854775808u64) {
        Some(reading) => {
            if reading.negative {
                if reading.digits == 9223372036854775808u64 {
                    Some(i64::MIN)
                } else {
                    Some(-(reading.digits as i64))
                }
            } else if reading.digits <= 9223372036854775807u64 {
                Some(reading.digits as i64)
            } else {
                None
            }
        },
        None => None,
    }
}

} // verus!
