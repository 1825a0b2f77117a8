//! Decimal numbers in text, read the way `str::parse` reads them.

use crate::text::{from_chars, str_eq, to_chars};
use vstd::prelude::*;

verus! {

/// An ASCII decimal digit.
pub open spec fn is_digit(c: char) -> bool {
    48 <= c as u32 <= 57
}

/// The value of a digit; 0 for any other character.
pub open spec fn digit_value(c: char) -> nat {
    if is_digit(c) {
        (c as u32 - 48) as nat
    } else {
        0
    }
}

/// Every character is a decimal digit.
pub open spec fn all_digits(s: Seq<char>) -> bool {
    forall|i: int| 0 <= i < s.len() ==> is_digit(#[trigger] s[i])
}

/// The number that a run of digits denotes, most significant digit first.
pub open spec fn decimal_value(s: Seq<char>) -> nat
    decreases s.len(),
{
    if s.len() == 0 {
        0
    } else {
        decimal_value(s.drop_last()) * 10 + digit_value(s.last())
    }
}

/// What `s` denotes as an unsigned number no greater than `max`: an optional
/// `+`, then one or more digits. `None` where `s` has another shape or the
/// number is too large.
pub open spec fn parse_unsigned(s: Seq<char>, max: nat) -> Option<nat> {
    let d = if s.len() > 0 && s[0] == '+' {
        s.drop_first()
    } else {
        s
    };
    if d.len() > 0 && all_digits(d) && decimal_value(d) <= max {
        Some(decimal_value(d))
    } else {
        None
    }
}

/// What `s` denotes as a signed number within `min..=max`: an optional `+` or
/// `-`, then one or more digits.
pub open spec fn parse_signed(s: Seq<char>, min: int, max: int) -> Option<int>
    recommends
        min <= 0 <= max,
{
    if s.len() > 0 && s[0] == '-' {
        let d = s.drop_first();
        if d.len() > 0 && all_digits(d) && -(decimal_value(d) as int) >= min {
            Some(-(decimal_value(d) as int))
        } else {
            None
        }
    } else {
        match parse_unsigned(s, max as nat) {
            Some(v) => Some(v as int),
            None => None,
        }
    }
}

/// A longer run of digits never denotes less than one of its prefixes.
pub proof fn lemma_decimal_value_prefix(s: Seq<char>, n: int)
    requires
        0 <= n <= s.len(),
    ensures
        decimal_value(s.take(n)) <= decimal_value(s),
    decreases s.len() - n,
{
    if n == s.len() {
        assert(s.take(n) == s);
    } else {
        lemma_decimal_value_prefix(s, n + 1);
        assert(s.take(n + 1).drop_last() == s.take(n));
    }
}

/// Reads the digits `v[from..]` as a number no greater than `max`.
fn parse_digits(v: &Vec<char>, from: usize, max: u64) -> (r: Option<u64>)
    requires
        from <= v.len(),
    ensures
        r == (if v.len() > from && all_digits(v@.skip(from as int)) && decimal_value(
            v@.skip(from as int),
        ) <= max {
            Some(decimal_value(v@.skip(from as int)) as u64)
        } else {
            None
        }),
{
    let ghost d = v@.skip(from as int);
    if v.len() == from {
        return None;
    }
    let mut acc: u64 = 0;
    let mut i: usize = from;
    proof {
        assert(d.take(0) == Seq::<char>::empty());
    }
    while i < v.len()
        invariant
            from <= i <= v.len(),
            d == v@.skip(from as int),
            all_digits(d.take(i - from)),
            acc == decimal_value(d.take(i - from)),
            acc <= max,
        decreases v.len() - i,
    {
        let x: u32 = v[i] as u32;
        proof {
            assert(d[i - from] == v@[i as int]);
            assert(d.take(i - from + 1).drop_last() == d.take(i - from));
            assert(d.take(i - from + 1).last() == v@[i as int]);
            lemma_decimal_value_prefix(d, i - from + 1);
        }
        if x < 48 || x > 57 {
            return None;
        }
        let dv: u64 = (x - 48) as u64;
        if acc > max / 10 {
            return None;
        }
        let shifted: u64 = acc * 10;
        if dv > max - shifted {
            return None;
        }
        acc = shifted + dv;
        proof {
            assert forall|j: int| 0 <= j < i - from + 1 implies is_digit(
                #[trigger] d.take(i - from + 1)[j],
            ) by {
                if j < i - from {
                    assert(d.take(i - from)[j] == d[j]);
                }
            }
        }
        i = i + 1;
    }
    proof {
        assert(d.take(d.len() as int) == d);
    }
    Some(acc)
}

/// Reads an unsigned number no greater than `max`.
pub fn parse_unsigned_chars(v: &Vec<char>, max: u64) -> (r: Option<u64>)
    ensures
        r == match parse_unsigned(v@, max as nat) {
            Some(n) => Some(n as u64),
            None => None,
        },
{
    let from: usize = if v.len() > 0 && v[0] == '+' {
        1
    } else {
        0
    };
    proof {
        assert(v@.skip(0) == v@);
        assert(v@.skip(1) == v@.drop_first());
    }
    parse_digits(v, from, max)
}

/// Reads a `u64` as `str::parse::<u64>` does.
pub fn parse_u64(s: &str) -> (r: Option<u64>)
    ensures
        r == match parse_unsigned(s@, u64::MAX as nat) {
            Some(n) => Some(n as u64),
            None => None,
        },
{
    let v = to_chars(s);
    parse_unsigned_chars(&v, u64::MAX)
}

/// Reads a `u16` as `str::parse::<u16>` does.
pub fn parse_u16(s: &str) -> (r: Option<u16>)
    ensures
        r == match parse_unsigned(s@, u16::MAX as nat) {
            Some(n) => Some(n as u16),
            None => None,
        },
{
    let v = to_chars(s);
    match parse_unsigned_chars(&v, 65535) {
        Some(n) => Some(n as u16),
        None => None,
    }
}

/// Reads a `usize` as `str::parse::<usize>` does.
pub fn parse_usize(s: &str) -> (r: Option<usize>)
    ensures
        r == match parse_unsigned(s@, usize::MAX as nat) {
            Some(n) => Some(n as usize),
            None => None,
        },
{
    let v = to_chars(s);
    match parse_unsigned_chars(&v, usize::MAX as u64) {
        Some(n) => Some(n as usize),
        None => None,
    }
}

/// Reads an `i32` as `str::parse::<i32>` does.
pub fn parse_i32(s: &str) -> (r: Option<i32>)
    ensures
        r == match parse_signed(s@, i32::MIN as int, i32::MAX as int) {
            Some(n) => Some(n as i32),
            None => None,
        },
{
    let v = to_chars(s);
    if v.len() > 0 && v[0] == '-' {
        proof {
            assert(v@.skip(1) == v@.drop_first());
        }
        match parse_digits(&v, 1, 2147483648) {
            Some(n) => {
                if n == 2147483648 {
                    Some(i32::MIN)
                } else {
                    Some(0 - (n as i32))
                }
            },
            None => None,
        }
    } else {
        match parse_unsigned_chars(&v, 2147483647) {
            Some(n) => Some(n as i32),
            None => None,
        }
    }
}

/// What `s` denotes as a truth value: exactly `true` or `false`.
pub open spec fn parse_truth(s: Seq<char>) -> Option<bool> {
    if s == seq!['t', 'r', 'u', 'e'] {
        Some(true)
    } else if s == seq!['f', 'a', 'l', 's', 'e'] {
        Some(false)
    } else {
        None
    }
}

/// Reads a `bool` as `str::parse::<bool>` does.
pub fn parse_bool(s: &str) -> (r: Option<bool>)
    ensures
        r == parse_truth(s@),
{
    proof {
        reveal_strlit("true");
        reveal_strlit("false");
        assert("true"@ =~= seq!['t', 'r', 'u', 'e']);
        assert("false"@ =~= seq!['f', 'a', 'l', 's', 'e']);
    }
    if str_eq(s, "true") {
        Some(true)
    } else if str_eq(s, "false") {
        Some(false)
    } else {
        None
    }
}

/// The decimal digits of `n`, most significant first, without leading zeros;
/// `0` is the single digit `0`.
pub open spec fn decimal_digits(n: nat) -> Seq<char>
    decreases n,
{
    if n < 10 {
        seq![(48 + n) as char]
    } else {
        decimal_digits(n / 10).push((48 + n % 10) as char)
    }
}

/// `decimal_digits` writes what `decimal_value` reads.
pub proof fn lemma_decimal_digits(n: nat)
    ensures
        decimal_digits(n).len() > 0,
        all_digits(decimal_digits(n)),
        decimal_value(decimal_digits(n)) == n,
    decreases n,
{
    if n < 10 {
        let s = decimal_digits(n);
        assert(s.drop_last() =~= Seq::<char>::empty());
        assert(s.last() == (48 + n) as char);
        assert(decimal_value(s.drop_last()) == 0);
    } else {
        lemma_decimal_digits(n / 10);
        let front = decimal_digits(n / 10);
        let d = (48 + n % 10) as char;
        let s = front.push(d);
        assert(s.drop_last() =~= front);
        assert(s.last() == d);
        assert forall|i: int| 0 <= i < s.len() implies is_digit(#[trigger] s[i]) by {
            if i < front.len() {
                assert(s[i] == front[i]);
            }
        }
    }
}

/// A number reads back from its own digits.
pub proof fn law_parse_inverts_decimal_digits(n: nat, max: nat)
    requires
        n <= max,
    ensures
        parse_unsigned(decimal_digits(n), max) == Some(n),
{
    lemma_decimal_digits(n);
    let s = decimal_digits(n);
    if n < 10 {
        assert(s[0] == (48 + n) as char);
    } else {
        lemma_first_digit(n);
    }
}

proof fn lemma_first_digit(n: nat)
    ensures
        is_digit(decimal_digits(n)[0]),
    decreases n,
{
    if n >= 10 {
        lemma_first_digit(n / 10);
        lemma_decimal_digits(n / 10);
    }
}

fn digit_char(d: u64) -> (c: char)
    requires
        d < 10,
    ensures
        c == (48 + d) as char,
{
    let code: u8 = (48 + d) as u8;
    code as char
}

fn push_decimal(n: u64, out: &mut Vec<char>)
    ensures
        final(out)@ == old(out)@ + decimal_digits(n as nat),
    decreases n,
{
    if n < 10 {
        out.push(digit_char(n));
        proof {
            assert(old(out)@.push((48 + n) as char) =~= old(out)@ + decimal_digits(n as nat));
        }
    } else {
        push_decimal(n / 10, out);
        out.push(digit_char(n % 10));
        proof {
            let front = decimal_digits((n / 10) as nat);
            let d = (48 + n % 10) as char;
            assert((old(out)@ + front).push(d) =~= old(out)@ + front.push(d));
        }
    }
}

/// Writes a number in decimal.
pub fn u64_to_string(n: u64) -> (s: String)
    ensures
        s@ == decimal_digits(n as nat),
{
    let mut out: Vec<char> = Vec::new();
    push_decimal(n, &mut out);
    proof {
        assert(Seq::<char>::empty() + decimal_digits(n as nat) =~= decimal_digits(n as nat));
    }
    from_chars(&out)
}

} // verus!
