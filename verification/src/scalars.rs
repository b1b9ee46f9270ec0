//! Numeric and boolean token parsers.
//!
//! A numeric token is decimal, or hexadecimal when it starts with the
//! literal prefix `0x`. A boolean token is exactly `true` or `false`.
//! The spec functions [`spec_parse_u32`] and [`spec_parse_bool`] define
//! both results precisely, including every failure cause.

use crate::error::CommandError;
use crate::error::NumericError;
use crate::error::SpecError;
use vstd::prelude::*;
use vstd::string::StrSliceExecFns;

verus! {

/// The value of `c` as a digit: `0`..`9` for the decimal digits,
/// `10`..`15` for the hexadecimal letters, and a sentinel above any
/// radix in use for every other character.
pub open spec fn digit_value(c: char) -> int {
    if '0' <= c && c <= '9' {
        c as int - '0' as int
    } else if 'a' <= c && c <= 'f' {
        10 + (c as int - 'a' as int)
    } else if 'A' <= c && c <= 'F' {
        10 + (c as int - 'A' as int)
    } else {
        99
    }
}

/// Whether `c` is a digit of the given radix.
pub open spec fn is_digit(c: char, radix: int) -> bool {
    digit_value(c) < radix
}

/// Folds the digits of `t` onto the accumulator `acc`, left to right,
/// failing at the first character that is not a digit or the first
/// partial value above `u32::MAX`.
pub open spec fn fold_digits(t: Seq<char>, radix: int, acc: int) -> Result<u32, NumericError>
    decreases t.len(),
{
    if t.len() == 0 {
        Ok(acc as u32)
    } else if !is_digit(t[0], radix) {
        Err(NumericError::InvalidDigit)
    } else if acc * radix + digit_value(t[0]) > u32::MAX {
        Err(NumericError::Overflow)
    } else {
        fold_digits(t.skip(1), radix, acc * radix + digit_value(t[0]))
    }
}

/// The value of `t` read in the given radix; an empty `t` is rejected.
pub open spec fn parse_radix(t: Seq<char>, radix: int) -> Result<u32, NumericError> {
    if t.len() == 0 {
        Err(NumericError::Empty)
    } else {
        fold_digits(t, radix, 0)
    }
}

/// The value of a numeric token: base 16 after a literal `0x` prefix,
/// base 10 otherwise.
pub open spec fn spec_parse_u32(t: Seq<char>) -> Result<u32, NumericError> {
    if t.len() >= 2 && t[0] == '0' && t[1] == 'x' {
        parse_radix(t.skip(2), 16)
    } else {
        parse_radix(t, 10)
    }
}

/// The value of a boolean token: exactly `true` or `false`, nothing else.
pub open spec fn spec_parse_bool(t: Seq<char>) -> Option<bool> {
    if t == "true"@ {
        Some(true)
    } else if t == "false"@ {
        Some(false)
    } else {
        None
    }
}

/// Converts one character to a digit of the given radix.
fn digit_of(c: char, radix: u32) -> (r: Option<u32>)
    requires
        radix == 10 || radix == 16,
    ensures
        match r {
            Some(d) => is_digit(c, radix as int) && d == digit_value(c),
            None => !is_digit(c, radix as int),
        },
{
    let v = c as u32;
    let d: u32 = if 0x30 <= v && v <= 0x39 {
        v - 0x30
    } else if 0x61 <= v && v <= 0x66 {
        v - 0x61 + 10
    } else if 0x41 <= v && v <= 0x46 {
        v - 0x41 + 10
    } else {
        return None;
    };
    if d < radix {
        Some(d)
    } else {
        None
    }
}

/// Parses a `u32` from a token: hexadecimal after a literal `0x` prefix,
/// decimal otherwise. Fails on an empty remainder, a malformed digit, or
/// a value above `u32::MAX`, reporting the cause.
pub fn parse_u32_from_str(s: &str) -> (r: Result<u32, CommandError>)
    ensures
        r matches Ok(v) ==> spec_parse_u32(s@) == Ok::<u32, NumericError>(v),
        r matches Err(e) ==> {
            &&& spec_parse_u32(s@) matches Err(cause)
            &&& e@ == (SpecError::MalformedNumeric { cause })
        },
{
    let n = s.unicode_len();
    let hex = n >= 2 && s.get_char(0) == '0' && s.get_char(1) == 'x';
    let start: usize = if hex {
        2
    } else {
        0
    };
    let radix: u32 = if hex {
        16
    } else {
        10
    };
    let ghost rest = s@.skip(start as int);
    if start >= n {
        proof {
            assert(rest.len() == 0);
        }
        return Err(CommandError::MalformedNumeric { cause: NumericError::Empty });
    }
    let mut acc: u64 = 0;
    let mut i: usize = start;
    proof {
        assert(s@.skip(0) =~= s@);
        assert(rest.skip(0) =~= rest);
        assert(spec_parse_u32(s@) == parse_radix(rest, radix as int));
    }
    while i < n
        invariant
            start <= i <= n,
            n == s@.len(),
            radix == 10 || radix == 16,
            rest == s@.skip(start as int),
            rest.len() > 0,
            spec_parse_u32(s@) == parse_radix(rest, radix as int),
            acc <= u32::MAX,
            fold_digits(rest, radix as int, 0) == fold_digits(
                s@.skip(i as int),
                radix as int,
                acc as int,
            ),
        decreases n - i,
    {
        let c = s.get_char(i);
        proof {
            assert(s@.skip(i as int)[0] == c);
        }
        match digit_of(c, radix) {
            None => {
                return Err(CommandError::MalformedNumeric { cause: NumericError::InvalidDigit });
            },
            Some(d) => {
                let next: u64 = acc * (radix as u64) + (d as u64);
                if next > u32::MAX as u64 {
                    return Err(CommandError::MalformedNumeric { cause: NumericError::Overflow });
                }
                acc = next;
            },
        }
        proof {
            assert(s@.skip(i as int).skip(1) =~= s@.skip(i + 1));
        }
        i = i + 1;
    }
    proof {
        assert(s@.skip(n as int) =~= Seq::<char>::empty());
    }
    Ok(acc as u32)
}

/// Parses a boolean token: exactly the literal `true` or `false`.
pub fn parse_bool(s: &str) -> (r: Result<bool, CommandError>)
    ensures
        r matches Ok(b) ==> spec_parse_bool(s@) == Some(b),
        r matches Err(e) ==> spec_parse_bool(s@) is None && e@ == SpecError::MalformedBoolean,
{
    if crate::text::str_eq(s, "true") {
        Ok(true)
    } else if crate::text::str_eq(s, "false") {
        Ok(false)
    } else {
        Err(CommandError::MalformedBoolean)
    }
}

} // verus!
