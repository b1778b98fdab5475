//! Decimal integers as text: std's rules for parsing integers,
//! and their rendering in base ten.

use vstd::prelude::*;
use crate::text::{is_digit, all_digits, digits_value, string_of};

verus! {

/// What `str::parse` gives for an unsigned integer type of unbounded width:
/// an optional `+` sign (not alone), then at least one ASCII digit and
/// nothing else.
pub open spec fn parse_unsigned(s: Seq<char>) -> Option<nat> {
    let digits = if s.len() > 1 && s[0] == '+' { s.drop_first() } else { s };
    if digits.len() > 0 && all_digits(digits) {
        Some(digits_value(digits))
    } else {
        None
    }
}

/// What `str::parse` gives for an unsigned type whose largest value is `max`.
pub open spec fn parse_bounded(s: Seq<char>, max: nat) -> Option<nat> {
    match parse_unsigned(s) {
        Some(v) => if v <= max { Some(v) } else { None },
        None => None,
    }
}

/// The value of the first `i` digits of `s`.
pub proof fn lemma_digits_prefix(s: Seq<char>, i: int)
    requires
        0 <= i < s.len(),
        is_digit(s[i]),
    ensures
        digits_value(s.take(i + 1)) == digits_value(s.take(i)) * 10
            + (s[i] as int - '0' as int),
{
    assert(s.take(i + 1).drop_last() == s.take(i));
}

/// A prefix of a digit string never denotes more than the whole string.
pub proof fn lemma_digits_prefix_le(s: Seq<char>, i: int)
    requires
        0 <= i <= s.len(),
        all_digits(s),
    ensures
        digits_value(s.take(i)) <= digits_value(s),
    decreases s.len() - i,
{
    if i < s.len() {
        lemma_digits_prefix(s, i);
        assert(is_digit(s[i]));
        lemma_digits_prefix_le(s, i + 1);
    } else {
        assert(s.take(i) == s);
    }
}

/// Parses `s` as std does for an unsigned type whose largest value is `max`.
pub fn parse_decimal(s: &[char], max: u128) -> (out: Option<u128>)
    ensures
        out matches Some(v) ==> parse_bounded(s@, max as nat) == Some(v as nat),
        out is None ==> parse_bounded(s@, max as nat) is None,
{
    let n = s.len();
    let start: usize = if n > 1 && s[0] == '+' { 1 } else { 0 };
    let ghost digits = if s@.len() > 1 && s@[0] == '+' { s@.drop_first() } else { s@ };
    assert(digits == s@.skip(start as int));
    if start >= n {
        return None;
    }
    let mut value: u128 = 0;
    let mut i = start;
    while i < n
        invariant
            start <= i <= n,
            n == s@.len(),
            digits == s@.skip(start as int),
            digits == (if s@.len() > 1 && s@[0] == '+' { s@.drop_first() } else { s@ }),
            all_digits(digits.take(i - start)),
            value as nat == digits_value(digits.take(i - start)),
            value <= max,
        decreases n - i,
    {
        let c = s[i];
        assert(digits[i - start] == c);
        if !('0' <= c && c <= '9') {
            assert(!is_digit(digits[i - start]));
            assert(!all_digits(digits));
            return None;
        }
        proof {
            lemma_digits_prefix(digits, i - start);
            assert(digits.take(i - start + 1) == digits.take(i - start).push(c));
        }
        let d: u128 = (c as u32 - '0' as u32) as u128;
        if d > max || value > (max - d) / 10 {
            proof {
                if d <= max {
                    assert(value * 10 + d > max) by (nonlinear_arith)
                        requires
                            value > (max - d) / 10,
                            d <= max,
                    ;
                }
                if all_digits(digits) {
                    lemma_digits_prefix_le(digits, i - start + 1);
                }
            }
            return None;
        }
        assert(value * 10 + d <= max) by (nonlinear_arith)
            requires
                value <= (max - d) / 10,
                d <= max,
        ;
        value = value * 10 + d;
        i = i + 1;
    }
    assert(digits.take(i - start) == digits);
    Some(value)
}

/// What `str::parse` gives for a signed integer type of unbounded width:
/// an optional `+` or `-` sign (not alone), then ASCII digits and nothing
/// else.
pub open spec fn parse_signed(s: Seq<char>) -> Option<int> {
    if s.len() > 1 && s[0] == '-' {
        if all_digits(s.drop_first()) {
            Some(-digits_value(s.drop_first()))
        } else {
            None
        }
    } else {
        match parse_unsigned(s) {
            Some(v) => Some(v as int),
            None => None,
        }
    }
}

/// What `str::parse::<i64>` gives.
pub open spec fn parse_i64_spec(s: Seq<char>) -> Option<int> {
    match parse_signed(s) {
        Some(v) => if i64::MIN <= v <= i64::MAX { Some(v) } else { None },
        None => None,
    }
}

/// Parses `s` as `str::parse::<i64>` does.
pub fn parse_i64(s: &[char]) -> (out: Option<i64>)
    ensures
        out matches Some(v) ==> parse_i64_spec(s@) == Some(v as int),
        out is None ==> parse_i64_spec(s@) is None,
{
    let n = s.len();
    if n > 1 && s[0] == '-' {
        let rest = crate::text::slice_chars(s, 1, n);
        assert(rest@ == s@.drop_first());
        if rest[0] == '+' {
            assert(!is_digit(rest@[0]));
            return None;
        }
        let magnitude = parse_decimal(rest.as_slice(), 0x8000_0000_0000_0000u128);
        match magnitude {
            Some(m) => {
                assert(all_digits(rest@));
                let v: i128 = 0i128 - m as i128;
                Some(v as i64)
            },
            None => {
                proof {
                    if all_digits(rest@) {
                        assert(parse_unsigned(rest@) == Some(digits_value(rest@)));
                    }
                }
                None
            },
        }
    } else {
        match parse_decimal(s, 0x7fff_ffff_ffff_ffffu128) {
            Some(v) => Some(v as i64),
            None => None,
        }
    }
}

/// The ASCII digit for `d`, which is below ten.
pub open spec fn digit_char(d: nat) -> char {
    (d + '0' as nat) as char
}

/// The base-ten text of `n`, without sign or leading zeros.
pub open spec fn decimal_text(n: nat) -> Seq<char>
    decreases n,
{
    if n < 10 {
        seq![digit_char(n)]
    } else {
        decimal_text(n / 10).push(digit_char(n % 10))
    }
}

fn push_decimal(n: u128, out: &mut Vec<char>)
    ensures
        final(out)@ == old(out)@ + decimal_text(n as nat),
    decreases n,
{
    if n >= 10 {
        push_decimal(n / 10, out);
    }
    let d = (n % 10) as u32;
    let c = char_from_digit(d);
    out.push(c);
}

fn char_from_digit(d: u32) -> (c: char)
    requires
        d < 10,
    ensures
        c == digit_char(d as nat),
{
    if d == 0 { '0' }
    else if d == 1 { '1' }
    else if d == 2 { '2' }
    else if d == 3 { '3' }
    else if d == 4 { '4' }
    else if d == 5 { '5' }
    else if d == 6 { '6' }
    else if d == 7 { '7' }
    else if d == 8 { '8' }
    else { '9' }
}

/// The base-ten text of `n`, as `to_string` writes it.
pub fn decimal_string(n: u128) -> (out: String)
    ensures
        out@ == decimal_text(n as nat),
{
    let mut cs: Vec<char> = Vec::new();
    push_decimal(n, &mut cs);
    assert(cs@ == decimal_text(n as nat));
    string_of(cs.as_slice())
}

} // verus!

verus! {

/// The base-ten text of `v`, with a `-` before negative values.
pub open spec fn signed_decimal_text(v: int) -> Seq<char> {
    if v < 0 {
        seq!['-'] + decimal_text((-v) as nat)
    } else {
        decimal_text(v as nat)
    }
}

/// The base-ten text of `v`, as `to_string` writes it.
pub fn signed_decimal_string(v: i64) -> (out: String)
    ensures
        out@ == signed_decimal_text(v as int),
{
    if v < 0 {
        let magnitude: u128 = (0i128 - v as i128) as u128;
        let digits = decimal_string(magnitude);
        let mut out = String::new();
        crate::text::push_char(&mut out, '-');
        crate::text::append_text(&mut out, digits.as_str());
        assert(out@ == seq!['-'] + decimal_text((-v) as nat));
        out
    } else {
        decimal_string(v as u128)
    }
}

} // verus!
