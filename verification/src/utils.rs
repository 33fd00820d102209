//! Verified parsing of decimal number tokens: registry indices (`usize`) and
//! due dates (`u32`). A token is one optional leading `+` sign followed by
//! decimal digits.

use vstd::prelude::*;

verus! {

/// Why a numeric token was rejected.
#[derive(Debug, Clone, Copy, PartialEq, Eq, Structural)]
pub enum ParseError {
    /// The token has no characters at all.
    Empty,
    /// Some character of the token is not a decimal digit.
    InvalidDigit,
    /// The token is all digits but its value does not fit the target type.
    Overflow,
}

/// `c` is a decimal digit.
pub open spec fn is_digit(c: char) -> bool {
    '0' <= c && c <= '9'
}

/// The numeric value of a decimal digit; zero for any other character.
pub open spec fn digit_value(c: char) -> nat {
    if is_digit(c) {
        ((c as u32) - ('0' as u32)) as nat
    } else {
        0
    }
}

/// Every character of `s` is a decimal digit.
pub open spec fn all_digits(s: Seq<char>) -> bool {
    forall|i: int| 0 <= i < s.len() ==> is_digit(#[trigger] s[i])
}

/// The number the digit string `s` denotes, most significant digit first.
pub open spec fn digits_value(s: Seq<char>) -> nat
    decreases s.len(),
{
    if s.len() == 0 {
        0
    } else {
        10 * digits_value(s.drop_last()) + digit_value(s.last())
    }
}

/// The digit part of a numeric token: everything after one optional leading
/// `+` sign.
pub open spec fn digits_of(s: Seq<char>) -> Seq<char> {
    if s.len() > 0 && s[0] == '+' {
        s.drop_first()
    } else {
        s
    }
}

/// Extending a digit string on the right never decreases its value.
proof fn lemma_digits_value_prefix_le(s: Seq<char>, i: int, j: int)
    requires
        0 <= i <= j <= s.len(),
    ensures
        digits_value(s.subrange(0, i)) <= digits_value(s.subrange(0, j)),
    decreases j - i,
{
    if i < j {
        lemma_digits_value_prefix_le(s, i, j - 1);
        assert(s.subrange(0, j).drop_last() =~= s.subrange(0, j - 1));
    }
}

/// The all-digit core of [`str_to_id`]: parses a token with no sign at all.
fn digits_to_usize(s: &str) -> (r: Result<usize, ParseError>)
    ensures
        match r {
            Ok(v) => s@.len() > 0 && all_digits(s@) && digits_value(s@) <= usize::MAX
                && v == digits_value(s@),
            Err(ParseError::Empty) => s@.len() == 0,
            Err(ParseError::InvalidDigit) => s@.len() > 0 && !all_digits(s@),
            Err(ParseError::Overflow) => s@.len() > 0 && all_digits(s@)
                && digits_value(s@) > usize::MAX,
        },
{
    let n: usize = s.unicode_len();
    if n == 0 {
        return Err(ParseError::Empty);
    }
    let mut i: usize = 0;
    while i < n
        invariant
            i <= n,
            n == s@.len(),
            all_digits(s@.subrange(0, i as int)),
        decreases n - i,
    {
        let c = s.get_char(i);
        if !('0' <= c && c <= '9') {
            return Err(ParseError::InvalidDigit);
        }
        proof {
            assert(s@.subrange(0, i + 1 as int) =~= s@.subrange(0, i as int).push(s@[i as int]));
        }
        i = i + 1;
    }
    proof {
        assert(s@.subrange(0, n as int) =~= s@);
    }
    let mut acc: usize = 0;
    i = 0;
    while i < n
        invariant
            i <= n,
            n == s@.len(),
            all_digits(s@),
            acc == digits_value(s@.subrange(0, i as int)),
        decreases n - i,
    {
        let c = s.get_char(i);
        let d: usize = ((c as u32) - ('0' as u32)) as usize;
        proof {
            assert(s@.subrange(0, i + 1 as int).drop_last() =~= s@.subrange(0, i as int));
        }
        let scaled = match acc.checked_mul(10) {
            Some(m) => m.checked_add(d),
            None => None,
        };
        match scaled {
            Some(v) => {
                acc = v;
            },
            None => {
                proof {
                    lemma_digits_value_prefix_le(s@, i + 1 as int, n as int);
                    assert(s@.subrange(0, n as int) =~= s@);
                }
                return Err(ParseError::Overflow);
            },
        }
        i = i + 1;
    }
    proof {
        assert(s@.subrange(0, n as int) =~= s@);
    }
    Ok(acc)
}

/// The all-digit core of [`str_to_u32`]: parses a token with no sign at all.
fn digits_to_u32(s: &str) -> (r: Result<u32, ParseError>)
    ensures
        match r {
            Ok(v) => s@.len() > 0 && all_digits(s@) && digits_value(s@) <= u32::MAX
                && v == digits_value(s@),
            Err(ParseError::Empty) => s@.len() == 0,
            Err(ParseError::InvalidDigit) => s@.len() > 0 && !all_digits(s@),
            Err(ParseError::Overflow) => s@.len() > 0 && all_digits(s@)
                && digits_value(s@) > u32::MAX,
        },
{
    let n: usize = s.unicode_len();
    if n == 0 {
        return Err(ParseError::Empty);
    }
    let mut i: usize = 0;
    while i < n
        invariant
            i <= n,
            n == s@.len(),
            all_digits(s@.subrange(0, i as int)),
        decreases n - i,
    {
        let c = s.get_char(i);
        if !('0' <= c && c <= '9') {
            return Err(ParseError::InvalidDigit);
        }
        proof {
            assert(s@.subrange(0, i + 1 as int) =~= s@.subrange(0, i as int).push(s@[i as int]));
        }
        i = i + 1;
    }
    proof {
        assert(s@.subrange(0, n as int) =~= s@);
    }
    let mut acc: u32 = 0;
    i = 0;
    while i < n
        invariant
            i <= n,
            n == s@.len(),
            all_digits(s@),
            acc == digits_value(s@.subrange(0, i as int)),
        decreases n - i,
    {
        let c = s.get_char(i);
        let d: u32 = (c as u32) - ('0' as u32);
        proof {
            assert(s@.subrange(0, i + 1 as int).drop_last() =~= s@.subrange(0, i as int));
        }
        let scaled = match acc.checked_mul(10) {
            Some(m) => m.checked_add(d),
            None => None,
        };
        match scaled {
            Some(v) => {
                acc = v;
            },
            None => {
                proof {
                    lemma_digits_value_prefix_le(s@, i + 1 as int, n as int);
                    assert(s@.subrange(0, n as int) =~= s@);
                }
                return Err(ParseError::Overflow);
            },
        }
        i = i + 1;
    }
    proof {
        assert(s@.subrange(0, n as int) =~= s@);
    }
    Ok(acc)
}

/// Parses a registry index: one optional leading `+` sign, then decimal
/// digits, denoting a value that fits a `usize`. Each error names exactly the
/// inputs it covers: `Empty` the empty token, `InvalidDigit` a token whose
/// digit part is empty or holds a non-digit character, `Overflow` a
/// well-formed token whose value is too large for the type.
pub fn str_to_id(s: &str) -> (r: Result<usize, ParseError>)
    ensures
        match r {
            Ok(v) => digits_of(s@).len() > 0 && all_digits(digits_of(s@))
                && digits_value(digits_of(s@)) <= usize::MAX
                && v == digits_value(digits_of(s@)),
            Err(ParseError::Empty) => s@.len() == 0,
            Err(ParseError::InvalidDigit) => s@.len() > 0
                && (digits_of(s@).len() == 0 || !all_digits(digits_of(s@))),
            Err(ParseError::Overflow) => digits_of(s@).len() > 0 && all_digits(digits_of(s@))
                && digits_value(digits_of(s@)) > usize::MAX,
        },
{
    let n: usize = s.unicode_len();
    if n > 0 && s.get_char(0) == '+' {
        let rest = s.substring_char(1, n);
        proof {
            assert(rest@ =~= s@.drop_first());
        }
        match digits_to_usize(rest) {
            Ok(v) => Ok(v),
            // a bare sign has no digits to parse
            Err(ParseError::Empty) => Err(ParseError::InvalidDigit),
            Err(e) => Err(e),
        }
    } else {
        digits_to_usize(s)
    }
}

/// Parses a due date: one optional leading `+` sign, then decimal digits,
/// denoting a value that fits a `u32`. The errors partition the rejected
/// inputs as in [`str_to_id`].
pub fn str_to_u32(s: &str) -> (r: Result<u32, ParseError>)
    ensures
        match r {
            Ok(v) => digits_of(s@).len() > 0 && all_digits(digits_of(s@))
                && digits_value(digits_of(s@)) <= u32::MAX
                && v == digits_value(digits_of(s@)),
            Err(ParseError::Empty) => s@.len() == 0,
            Err(ParseError::InvalidDigit) => s@.len() > 0
                && (digits_of(s@).len() == 0 || !all_digits(digits_of(s@))),
            Err(ParseError::Overflow) => digits_of(s@).len() > 0 && all_digits(digits_of(s@))
                && digits_value(digits_of(s@)) > u32::MAX,
        },
{
    let n: usize = s.unicode_len();
    if n > 0 && s.get_char(0) == '+' {
        let rest = s.substring_char(1, n);
        proof {
            assert(rest@ =~= s@.drop_first());
        }
        match digits_to_u32(rest) {
            Ok(v) => Ok(v),
            // a bare sign has no digits to parse
            Err(ParseError::Empty) => Err(ParseError::InvalidDigit),
            Err(e) => Err(e),
        }
    } else {
        digits_to_u32(s)
    }
}

} // verus!
