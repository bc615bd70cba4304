//! Decimal integer parsing, as used for ids, amounts and the server port.

use vstd::prelude::*;

verus! {

/// Why a decimal text was not accepted as an integer.
#[derive(Clone, Copy, Debug, PartialEq, Eq, Structural)]
pub enum IdError {
    /// The text is empty.
    Empty,
    /// The text is not an optional sign followed by one or more ASCII digits.
    InvalidDigit,
    /// The text is a well-formed decimal number outside the target range.
    Overflow,
}

pub open spec fn is_digit(c: char) -> bool {
    '0' <= c && c <= '9'
}

pub open spec fn digit_value(c: char) -> int {
    c as int - '0' as int
}

/// One or more ASCII digits and nothing else.
pub open spec fn all_digits(s: Seq<char>) -> bool {
    s.len() > 0 && forall|i: int| 0 <= i < s.len() ==> is_digit(#[trigger] s[i])
}

/// The value of a string of digits read in base ten.
pub open spec fn digits_value(s: Seq<char>) -> int
    decreases s.len(),
{
    if s.len() == 0 {
        0
    } else {
        digits_value(s.drop_last()) * 10 + digit_value(s.last())
    }
}

/// The integer that a decimal literal denotes: an optional `+` (or, when
/// `allow_minus`, `-`) followed by one or more ASCII digits.
pub open spec fn decimal_literal(s: Seq<char>, allow_minus: bool) -> Option<int> {
    if s.len() > 0 && s[0] == '+' {
        if all_digits(s.drop_first()) {
            Some(digits_value(s.drop_first()))
        } else {
            None
        }
    } else if allow_minus && s.len() > 0 && s[0] == '-' {
        if all_digits(s.drop_first()) {
            Some(-digits_value(s.drop_first()))
        } else {
            None
        }
    } else if all_digits(s) {
        Some(digits_value(s))
    } else {
        None
    }
}

/// What parsing `s` into an integer in `[lo, hi]` yields.
pub open spec fn parse_outcome(s: Seq<char>, allow_minus: bool, lo: int, hi: int) -> Result<int, IdError> {
    if s.len() == 0 {
        Err(IdError::Empty)
    } else {
        match decimal_literal(s, allow_minus) {
            Some(v) => if lo <= v && v <= hi {
                Ok(v)
            } else {
                Err(IdError::Overflow)
            },
            None => Err(IdError::InvalidDigit),
        }
    }
}

pub open spec fn spec_parse_i64(s: Seq<char>) -> Result<int, IdError> {
    parse_outcome(s, true, i64::MIN as int, i64::MAX as int)
}

pub open spec fn spec_parse_u16(s: Seq<char>) -> Result<int, IdError> {
    parse_outcome(s, false, 0, u16::MAX as int)
}

proof fn lemma_digits_value_nonneg(s: Seq<char>)
    requires
        forall|i: int| 0 <= i < s.len() ==> is_digit(#[trigger] s[i]),
    ensures
        digits_value(s) >= 0,
    decreases s.len(),
{
    if s.len() > 0 {
        lemma_digits_value_nonneg(s.drop_last());
    }
}

/// Reads the digits of `s` from char index `start` on, as a magnitude that
/// must not exceed `limit`.
fn parse_magnitude(s: &str, start: usize, limit: u128) -> (r: Result<u128, IdError>)
    requires
        start <= s@.len(),
        limit <= 0x1_0000_0000_0000_0000,
    ensures
        match r {
            Ok(m) => all_digits(s@.skip(start as int)) && m == digits_value(s@.skip(start as int))
                && m <= limit,
            Err(IdError::Overflow) => all_digits(s@.skip(start as int)) && digits_value(
                s@.skip(start as int),
            ) > limit,
            Err(IdError::InvalidDigit) => !all_digits(s@.skip(start as int)),
            Err(IdError::Empty) => false,
        },
{
    let n = s.unicode_len();
    let ghost rest = s@.skip(start as int);
    if start == n {
        return Err(IdError::InvalidDigit);
    }
    let mut acc: u128 = 0;
    let mut over = false;
    let mut i = start;
    while i < n
        invariant
            n == s@.len(),
            start <= i <= n,
            rest == s@.skip(start as int),
            limit <= 0x1_0000_0000_0000_0000,
            forall|j: int| 0 <= j < i - start ==> is_digit(#[trigger] rest[j]),
            !over ==> acc == digits_value(rest.take(i - start)) && acc <= limit,
            over ==> digits_value(rest.take(i - start)) > limit,
        decreases n - i,
    {
        let c = s.get_char(i);
        if c < '0' || c > '9' {
            assert(rest[i - start] == c);
            return Err(IdError::InvalidDigit);
        }
        let d = (c as u32 - '0' as u32) as u128;
        let ghost pre = rest.take(i - start);
        let ghost post = rest.take(i + 1 - start);
        assert(post.drop_last() =~= pre);
        assert(post.last() == c);
        proof {
            lemma_digits_value_nonneg(pre);
        }
        if !over {
            let next = acc * 10 + d;
            if next > limit {
                over = true;
            } else {
                acc = next;
            }
        }
        i = i + 1;
    }
    assert(rest.take(n - start) =~= rest);
    if over {
        Err(IdError::Overflow)
    } else {
        Ok(acc)
    }
}

/// Parses `s` as a decimal `i64`: an optional `+` or `-` and then ASCII digits.
pub fn parse_i64(s: &str) -> (r: Result<i64, IdError>)
    ensures
        match r {
            Ok(v) => spec_parse_i64(s@) == Ok::<int, IdError>(v as int),
            Err(e) => spec_parse_i64(s@) == Err::<int, IdError>(e),
        },
{
    let n = s.unicode_len();
    if n == 0 {
        return Err(IdError::Empty);
    }
    let c0 = s.get_char(0);
    if c0 == '-' {
        match parse_magnitude(s, 1, 0x8000_0000_0000_0000) {
            Ok(m) => {
                if m == 0x8000_0000_0000_0000 {
                    Ok(i64::MIN)
                } else {
                    let v = m as i64;
                    Ok(-v)
                }
            },
            Err(e) => Err(e),
        }
    } else {
        let start: usize = if c0 == '+' { 1 } else { 0 };
        assert(s@.skip(0) =~= s@);
        match parse_magnitude(s, start, 0x7fff_ffff_ffff_ffff) {
            Ok(m) => Ok(m as i64),
            Err(e) => Err(e),
        }
    }
}

/// Parses `s` as a decimal `u16`: an optional `+` and then ASCII digits.
pub fn parse_u16(s: &str) -> (r: Result<u16, IdError>)
    ensures
        match r {
            Ok(v) => spec_parse_u16(s@) == Ok::<int, IdError>(v as int),
            Err(e) => spec_parse_u16(s@) == Err::<int, IdError>(e),
        },
{
    let n = s.unicode_len();
    if n == 0 {
        return Err(IdError::Empty);
    }
    let c0 = s.get_char(0);
    let start: usize = if c0 == '+' { 1 } else { 0 };
    assert(s@.skip(0) =~= s@);
    match parse_magnitude(s, start, 0xffff) {
        Ok(m) => Ok(m as u16),
        Err(e) => Err(e),
    }
}

/// Reads an id given as the text of a route parameter.
pub fn get_id(param: &str) -> (r: Result<i64, IdError>)
    ensures
        match r {
            Ok(v) => spec_parse_i64(param@) == Ok::<int, IdError>(v as int),
            Err(e) => spec_parse_i64(param@) == Err::<int, IdError>(e),
        },
{
    parse_i64(param)
}

} // verus!
