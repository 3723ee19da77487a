//! Verified decimal parsing for configuration fields.
//!
//! Configuration values such as the port, the batch size and the repeat count
//! arrive as text; each falls back to a default when the text is not a plain
//! decimal number that fits the target type.

use vstd::prelude::*;

verus! {

/// Whether `c` is a decimal digit.
pub open spec fn is_digit(c: char) -> bool {
    '0' <= c && c <= '9'
}

/// The numeric value of a digit character.
pub open spec fn digit_value(c: char) -> int {
    c as int - '0' as int
}

/// Whether every character of `s` is a decimal digit and there is at least one.
pub open spec fn all_digits(s: Seq<char>) -> bool {
    s.len() > 0 && forall|i: int| 0 <= i < s.len() ==> is_digit(s[i])
}

/// The number denoted by the digit string `s`, most significant digit first.
pub open spec fn dec_value(s: Seq<char>) -> int
    decreases s.len(),
{
    if s.len() == 0 {
        0
    } else {
        dec_value(s.drop_last()) * 10 + digit_value(s.last())
    }
}

/// The number denoted by a digit string, or `None` when the text is not a
/// plain decimal number or its value exceeds `max`. This is how the engine
/// reads every numeric configuration field (`str::parse` semantics for
/// unsigned integers, without sign or underscores).
pub open spec fn parse_dec(s: Seq<char>, max: int) -> Option<int> {
    if all_digits(s) && dec_value(s) <= max {
        Some(dec_value(s))
    } else {
        None
    }
}

proof fn lemma_dec_value_nonneg(s: Seq<char>)
    requires
        forall|i: int| 0 <= i < s.len() ==> is_digit(s[i]),
    ensures
        dec_value(s) >= 0,
    decreases s.len(),
{
    if s.len() > 0 {
        lemma_dec_value_nonneg(s.drop_last());
    }
}

/// Parses `s` as a decimal number no larger than `max`.
pub fn parse_dec_u64(s: &str, max: u64) -> (r: Option<u64>)
    ensures
        match r {
            Some(v) => parse_dec(s@, max as int) == Some(v as int),
            None => parse_dec(s@, max as int) is None,
        },
{
    let chars = crate::strutil::str_chars(s);
    if chars.len() == 0 {
        return None;
    }
    let mut acc: u64 = 0;
    let mut i: usize = 0;
    while i < chars.len()
        invariant
            i <= chars.len(),
            chars@ == s@,
            chars@.len() > 0,
            acc <= max,
            forall|j: int| 0 <= j < i ==> is_digit(chars@[j]),
            acc as int == dec_value(chars@.take(i as int)),
            dec_value(chars@.take(i as int)) <= max as int,
        decreases chars.len() - i,
    {
        let c = chars[i];
        if c < '0' || c > '9' {
            proof {
                assert(!is_digit(chars@[i as int]));
            }
            return None;
        }
        let d: u64 = (c as u32 as u64) - ('0' as u32 as u64);
        proof {
            assert(chars@.take(i + 1).drop_last() =~= chars@.take(i as int));
            assert(chars@.take(i + 1).last() == chars@[i as int]);
        }
        if acc > max / 10 || (acc == max / 10 && d > max % 10) {
            proof {
                assert(dec_value(chars@.take(i + 1)) > max as int);
                lemma_grow(chars@, i + 1, max as int);
            }
            return None;
        }
        acc = acc * 10 + d;
        i = i + 1;
    }
    proof {
        assert(chars@.take(chars@.len() as int) =~= chars@);
    }
    Some(acc)
}

/// A digit string's value only grows as more digits follow: once a prefix
/// exceeds `max`, the whole string does.
proof fn lemma_grow(s: Seq<char>, i: int, max: int)
    requires
        0 < i <= s.len(),
        forall|j: int| 0 <= j < i ==> is_digit(s[j]),
        dec_value(s.take(i)) > max,
        max >= 0,
    ensures
        !(all_digits(s) && dec_value(s) <= max),
    decreases s.len() - i,
{
    if all_digits(s) {
        if i == s.len() {
            assert(s.take(i) =~= s);
        } else {
            assert(s.take(i + 1).drop_last() =~= s.take(i));
            assert(is_digit(s.take(i + 1).last()));
            lemma_grow(s, i + 1, max);
        }
    }
}

/// `str::parse::<u64>` semantics with a fallback default.
pub fn parse_u64(s: &str, default: u64) -> (r: u64)
    ensures
        r as int == match parse_dec(s@, u64::MAX as int) {
            Some(v) => v,
            None => default as int,
        },
{
    match parse_dec_u64(s, u64::MAX) {
        Some(v) => v,
        None => default,
    }
}

/// `str::parse::<u32>` semantics with a fallback default.
pub fn parse_u32(s: &str, default: u32) -> (r: u32)
    ensures
        r as int == match parse_dec(s@, u32::MAX as int) {
            Some(v) => v,
            None => default as int,
        },
{
    match parse_dec_u64(s, u32::MAX as u64) {
        Some(v) => v as u32,
        None => default,
    }
}

/// `str::parse::<u16>` semantics with a fallback default.
pub fn parse_u16(s: &str, default: u16) -> (r: u16)
    ensures
        r as int == match parse_dec(s@, u16::MAX as int) {
            Some(v) => v,
            None => default as int,
        },
{
    match parse_dec_u64(s, u16::MAX as u64) {
        Some(v) => v as u16,
        None => default,
    }
}

/// `str::parse::<usize>` semantics with a fallback default.
pub fn parse_usize(s: &str, default: usize) -> (r: usize)
    ensures
        r as int == match parse_dec(s@, usize::MAX as int) {
            Some(v) => v,
            None => default as int,
        },
{
    match parse_dec_u64(s, usize::MAX as u64) {
        Some(v) => v as usize,
        None => default,
    }
}

/// `str::parse::<usize>` without a fallback.
pub fn try_parse_usize(s: &str) -> (r: Option<usize>)
    ensures
        match r {
            Some(v) => parse_dec(s@, usize::MAX as int) == Some(v as int),
            None => parse_dec(s@, usize::MAX as int) is None,
        },
{
    match parse_dec_u64(s, usize::MAX as u64) {
        Some(v) => Some(v as usize),
        None => None,
    }
}

} // verus!
