//! Decimal numbers: writing them out and reading them back.

use vstd::prelude::*;

use crate::text::{chars_of, digit, is_digit};

verus! {

// ---------------------------------------------------------------------------
// Writing
// ---------------------------------------------------------------------------

pub open spec fn digit_char(d: int) -> char {
    (48 + d) as char
}

/// `n` in decimal, without leading zeros.
pub open spec fn decimal(n: nat) -> Seq<char>
    decreases n,
{
    if n < 10 {
        seq![digit_char(n as int)]
    } else {
        decimal(n / 10).push(digit_char((n % 10) as int))
    }
}

/// `n` in decimal, with a leading `-` where it is negative.
pub open spec fn signed_decimal(n: int) -> Seq<char> {
    if n < 0 {
        seq!['-'] + decimal((-n) as nat)
    } else {
        decimal(n as nat)
    }
}

fn push_decimal(out: &mut String, n: u64)
    ensures
        final(out)@ == old(out)@ + decimal(n as nat),
    decreases n,
{
    if n >= 10 {
        push_decimal(out, n / 10);
    }
    let d: u8 = (n % 10) as u8;
    out.push((48u8 + d) as char);
    assert(out@ =~= old(out)@ + decimal(n as nat));
}

pub fn u64_to_string(n: u64) -> (r: String)
    ensures
        r@ == decimal(n as nat),
{
    let mut r = String::new();
    push_decimal(&mut r, n);
    assert(r@ =~= decimal(n as nat));
    r
}

pub fn i32_to_string(n: i32) -> (r: String)
    ensures
        r@ == signed_decimal(n as int),
{
    let mut r = String::new();
    let wide: i64 = n as i64;
    if wide < 0 {
        r.push('-');
        push_decimal(&mut r, (-wide) as u64);
    } else {
        push_decimal(&mut r, wide as u64);
    }
    assert(r@ =~= signed_decimal(n as int));
    r
}

// ---------------------------------------------------------------------------
// Reading
// ---------------------------------------------------------------------------

pub open spec fn all_digits(s: Seq<char>) -> bool {
    forall|i: int| 0 <= i < s.len() ==> is_digit(#[trigger] s[i])
}

pub open spec fn digit_value(c: char) -> int {
    c as int - 48
}

/// The number that a row of digits stands for.
pub open spec fn value_of(s: Seq<char>) -> int
    decreases s.len(),
{
    if s.len() == 0 {
        0
    } else {
        value_of(s.drop_last()) * 10 + digit_value(s.last())
    }
}

/// A non-empty row of digits that stands for at most `max`.
pub open spec fn digits_up_to(s: Seq<char>, max: int) -> Option<int> {
    if s.len() > 0 && all_digits(s) && value_of(s) <= max {
        Some(value_of(s))
    } else {
        None
    }
}

/// How an unsigned number of at most `max` is read: digits, after an optional
/// `+`.
pub open spec fn parse_unsigned(s: Seq<char>, max: int) -> Option<int> {
    if s.len() > 0 && s[0] == '+' {
        digits_up_to(s.skip(1), max)
    } else {
        digits_up_to(s, max)
    }
}

/// How a signed number in `min..=max` is read: digits, after an optional sign.
pub open spec fn parse_signed(s: Seq<char>, min: int, max: int) -> Option<int> {
    if s.len() > 0 && s[0] == '-' {
        match digits_up_to(s.skip(1), -min) {
            Some(n) => Some(-n),
            None => None,
        }
    } else {
        parse_unsigned(s, max)
    }
}

proof fn lemma_value_monotone(s: Seq<char>, n: int)
    requires
        0 <= n <= s.len(),
        all_digits(s),
    ensures
        0 <= value_of(s.take(n)) <= value_of(s),
    decreases s.len(),
{
    if n == s.len() {
        assert(s.take(n) =~= s);
        if n > 0 {
            assert(is_digit(s[n - 1]));
            assert(s.drop_last().take(n - 1) =~= s.drop_last());
            assert forall|i: int| 0 <= i < s.drop_last().len() implies is_digit(
                #[trigger] s.drop_last()[i],
            ) by {
                assert(is_digit(s[i]));
            }
            lemma_value_monotone(s.drop_last(), n - 1);
        }
    } else {
        assert forall|i: int| 0 <= i < s.drop_last().len() implies is_digit(
            #[trigger] s.drop_last()[i],
        ) by {
            assert(is_digit(s[i]));
        }
        lemma_value_monotone(s.drop_last(), n);
        assert(s.drop_last().take(n) =~= s.take(n));
        assert(is_digit(s[s.len() - 1]));
    }
}

/// What is written in decimal is read back as the same number.
pub proof fn law_decimal_round_trip(n: nat, max: int)
    requires
        n <= max,
    ensures
        all_digits(decimal(n)),
        value_of(decimal(n)) == n,
        parse_unsigned(decimal(n), max) == Some(n as int),
    decreases n,
{
    let d = decimal(n);
    if n < 10 {
        assert(d.drop_last() =~= Seq::empty());
        assert(value_of(d.drop_last()) == 0);
    } else {
        law_decimal_round_trip(n / 10, max);
        assert(d.drop_last() =~= decimal(n / 10));
        assert forall|i: int| 0 <= i < d.len() implies is_digit(#[trigger] d[i]) by {
            if i < d.len() - 1 {
                assert(decimal(n / 10)[i] == d[i]);
            }
        }
    }
    assert(is_digit(d[0]));
}

/// Reads `s[from..]` as `digits_up_to` says.
fn digits_from(s: &Vec<char>, from: usize, max: u64) -> (r: Option<u64>)
    requires
        from <= s@.len(),
    ensures
        r is Some <==> digits_up_to(s@.skip(from as int), max as int) is Some,
        r matches Some(n) ==> digits_up_to(s@.skip(from as int), max as int) == Some(n as int),
{
    let ghost body = s@.skip(from as int);
    if from == s.len() {
        return None;
    }
    let mut n: u64 = 0;
    let mut i: usize = from;
    while i < s.len()
        invariant
            from <= i <= s@.len(),
            body == s@.skip(from as int),
            forall|j: int| 0 <= j < i - from ==> is_digit(#[trigger] body[j]),
            n == value_of(body.take(i - from)),
            n <= max,
        decreases s@.len() - i,
    {
        let c = s[i];
        assert(body[i - from] == c);
        if !digit(c) {
            return None;
        }
        let d: u128 = (c as u32 - 48) as u128;
        let wide: u128 = (n as u128) * 10 + d;
        assert(body.take(i - from + 1).drop_last() =~= body.take(i - from));
        assert(value_of(body.take(i - from + 1)) == n * 10 + d);
        if wide > max as u128 {
            proof {
                if all_digits(body) {
                    lemma_value_monotone(body, i - from + 1);
                }
            }
            return None;
        }
        n = wide as u64;
        i += 1;
    }
    assert(body.take(body.len() as int) =~= body);
    Some(n)
}

/// `str::parse::<u64>`, with `None` for every error.
pub fn parse_u64(s: &str) -> (r: Option<u64>)
    ensures
        r is Some <==> parse_unsigned(s@, u64::MAX as int) is Some,
        r matches Some(n) ==> parse_unsigned(s@, u64::MAX as int) == Some(n as int),
{
    let cs = chars_of(s);
    if cs.len() > 0 && cs[0] == '+' {
        digits_from(&cs, 1, u64::MAX)
    } else {
        assert(cs@.skip(0) =~= cs@);
        digits_from(&cs, 0, u64::MAX)
    }
}

/// `str::parse::<i32>`, with `None` for every error.
pub fn parse_i32(s: &str) -> (r: Option<i32>)
    ensures
        r is Some <==> parse_signed(s@, i32::MIN as int, i32::MAX as int) is Some,
        r matches Some(n) ==> parse_signed(s@, i32::MIN as int, i32::MAX as int) == Some(n as int),
{
    let cs = chars_of(s);
    if cs.len() > 0 && cs[0] == '-' {
        match digits_from(&cs, 1, 2147483648) {
            Some(n) => Some((-(n as i64)) as i32),
            None => None,
        }
    } else {
        let from: usize = if cs.len() > 0 && cs[0] == '+' {
            1
        } else {
            0
        };
        assert(cs@.skip(0) =~= cs@);
        match digits_from(&cs, from, 2147483647) {
            Some(n) => Some(n as i32),
            None => None,
        }
    }
}

} // verus!
