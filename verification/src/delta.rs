//! The counter delta grammar: one operator character followed by a decimal
//! integer.  `+` adds, `-` subtracts and `@` sets the counter outright.

use vstd::prelude::*;

verus! {

/// Why a delta could not be applied to a counter.
#[derive(Clone, Copy, Debug, PartialEq, Eq, Structural)]
pub enum DeltaError {
    /// The integer part is missing or malformed, or the counter would leave
    /// the 32-bit range.
    InvalidCount,
    /// The first character is none of `+`, `-`, `@`.
    InvalidOperator,
}

/// True for the ten ASCII decimal digits.
pub open spec fn is_digit(c: char) -> bool {
    '0' <= c && c <= '9'
}

/// True when every character of `s` is a decimal digit.
pub open spec fn all_digits(s: Seq<char>) -> bool {
    forall|i: int| 0 <= i < s.len() ==> is_digit(#[trigger] s[i])
}

/// The number that a string of decimal digits denotes (0 for the empty one).
pub open spec fn digits_value(s: Seq<char>) -> int
    decreases s.len(),
{
    if s.len() == 0 {
        0
    } else {
        digits_value(s.drop_last()) * 10 + (s.last() as int - '0' as int)
    }
}

/// The digits of a signed decimal literal: `s` without its leading sign.
pub open spec fn unsigned_part(s: Seq<char>) -> Seq<char> {
    if s.len() > 0 && (s[0] == '-' || s[0] == '+') {
        s.subrange(1, s.len() as int)
    } else {
        s
    }
}

/// The 32-bit integer that `s` denotes: an optional `+` or `-`, then one or
/// more decimal digits, the value within the range of `i32`.  `None` for
/// every other string.
pub open spec fn integer_of(s: Seq<char>) -> Option<int> {
    let digits = unsigned_part(s);
    let magnitude = digits_value(digits);
    let value = if s.len() > 0 && s[0] == '-' {
        -magnitude
    } else {
        magnitude
    };
    if digits.len() == 0 || !all_digits(digits) || value < i32::MIN || value > i32::MAX {
        None
    } else {
        Some(value)
    }
}

/// `value` as a counter, or `InvalidCount` when it does not fit in 32 bits.
pub open spec fn counter_of(value: int) -> Result<int, DeltaError> {
    if i32::MIN <= value <= i32::MAX {
        Ok(value)
    } else {
        Err(DeltaError::InvalidCount)
    }
}

/// What a counter holding `current` becomes under the delta `text`.
///
/// The integer is read first, so a delta with both a bad operator and a bad
/// integer is an `InvalidCount`.
pub open spec fn delta_outcome(current: int, text: Seq<char>) -> Result<int, DeltaError> {
    if text.len() == 0 {
        Err(DeltaError::InvalidCount)
    } else {
        match integer_of(text.subrange(1, text.len() as int)) {
            None => Err(DeltaError::InvalidCount),
            Some(amount) => {
                if text[0] == '+' {
                    counter_of(current + amount)
                } else if text[0] == '-' {
                    counter_of(current - amount)
                } else if text[0] == '@' {
                    Ok(amount)
                } else {
                    Err(DeltaError::InvalidOperator)
                }
            },
        }
    }
}

/// Appending a digit multiplies the value by ten and adds the digit.
proof fn digits_value_step(s: Seq<char>, n: int)
    requires
        0 <= n < s.len(),
    ensures
        digits_value(s.subrange(0, n + 1)) == digits_value(s.subrange(0, n)) * 10 + (s[n] as int
            - '0' as int),
{
    let t = s.subrange(0, n + 1);
    assert(t.drop_last() =~= s.subrange(0, n));
    assert(t.last() == s[n]);
}

/// The value of a digit string is never negative.
proof fn digits_value_nonnegative(s: Seq<char>)
    requires
        all_digits(s),
    ensures
        digits_value(s) >= 0,
    decreases s.len(),
{
    if s.len() > 0 {
        assert(all_digits(s.drop_last())) by {
            assert forall|i: int| 0 <= i < s.drop_last().len() implies is_digit(
                #[trigger] s.drop_last()[i],
            ) by {
                assert(s.drop_last()[i] == s[i]);
            }
        }
        digits_value_nonnegative(s.drop_last());
        assert(is_digit(s[s.len() - 1]));
    }
}

/// Reads the decimal digits `text[from..]` and returns their value while it
/// stays at or below `limit`.
fn read_digits(text: &str, from: usize, limit: i64) -> (r: Option<i64>)
    requires
        from <= text@.len(),
        0 <= limit <= 0x8000_0000,
    ensures
        ({
            let digits = text@.subrange(from as int, text@.len() as int);
            match r {
                Some(v) => digits.len() > 0 && all_digits(digits) && v == digits_value(digits) && v
                    <= limit,
                None => digits.len() == 0 || !all_digits(digits) || digits_value(digits) > limit,
            }
        }),
{
    let len: usize = text.unicode_len();
    if from >= len {
        return None;
    }
    let ghost digits = text@.subrange(from as int, len as int);
    let mut value: i64 = 0;
    let mut exceeded: bool = false;
    let mut i: usize = from;
    while i < len
        invariant
            from <= i <= len,
            len == text@.len(),
            digits == text@.subrange(from as int, len as int),
            0 <= limit <= 0x8000_0000,
            all_digits(digits.subrange(0, i - from)),
            0 <= value <= limit,
            !exceeded ==> value == digits_value(digits.subrange(0, i - from)),
            exceeded ==> digits_value(digits.subrange(0, i - from)) > limit,
        decreases len - i,
    {
        let c: char = text.get_char(i);
        let ghost seen = digits.subrange(0, i - from);
        let ghost next = digits.subrange(0, i - from + 1);
        assert(digits[i - from] == c);
        if c < '0' || c > '9' {
            assert(!is_digit(digits[i - from]));
            return None;
        }
        proof {
            digits_value_step(digits, i - from);
            digits_value_nonnegative(seen);
            assert forall|k: int| 0 <= k < next.len() implies is_digit(#[trigger] next[k]) by {
                if k < i - from {
                    assert(seen[k] == next[k]);
                }
            }
        }
        if !exceeded {
            let digit: i64 = (c as u32 - '0' as u32) as i64;
            let grown: i64 = value * 10 + digit;
            if grown > limit {
                exceeded = true;
            } else {
                value = grown;
            }
        }
        i = i + 1;
    }
    assert(digits.subrange(0, len - from) =~= digits);
    if exceeded {
        None
    } else {
        Some(value)
    }
}

/// Reads a signed 32-bit decimal integer from `text[from..]`.
fn read_integer(text: &str, from: usize) -> (r: Option<i32>)
    requires
        from <= text@.len(),
    ensures
        match r {
            Some(v) => integer_of(text@.subrange(from as int, text@.len() as int)) == Some(
                v as int,
            ),
            None => integer_of(text@.subrange(from as int, text@.len() as int)) is None,
        },
{
    let len: usize = text.unicode_len();
    let ghost s = text@.subrange(from as int, len as int);
    if from >= len {
        return None;
    }
    let sign: char = text.get_char(from);
    assert(s[0] == sign);
    if sign == '-' || sign == '+' {
        assert(unsigned_part(s) =~= text@.subrange(from + 1, len as int));
        if sign == '-' {
            match read_digits(text, from + 1, 0x8000_0000) {
                Some(v) => {
                    proof {
                        digits_value_nonnegative(unsigned_part(s));
                    }
                    Some((0 - v) as i32)
                },
                None => {
                    proof {
                        if unsigned_part(s).len() > 0 && all_digits(unsigned_part(s)) {
                            digits_value_nonnegative(unsigned_part(s));
                        }
                    }
                    None
                },
            }
        } else {
            match read_digits(text, from + 1, 0x7fff_ffff) {
                Some(v) => {
                    proof {
                        digits_value_nonnegative(unsigned_part(s));
                    }
                    Some(v as i32)
                },
                None => None,
            }
        }
    } else {
        assert(unsigned_part(s) =~= s);
        match read_digits(text, from, 0x7fff_ffff) {
            Some(v) => {
                proof {
                    digits_value_nonnegative(unsigned_part(s));
                }
                Some(v as i32)
            },
            None => None,
        }
    }
}

/// Applies the delta `text` to a counter that holds `current`.
///
/// `"+5"` on 3 gives 8, `"-2"` on 8 gives 6, `"@10"` gives 10 whatever the
/// counter held.
pub fn apply_delta(current: i32, text: &str) -> (r: Result<i32, DeltaError>)
    ensures
        match r {
            Ok(v) => delta_outcome(current as int, text@) == Ok::<int, DeltaError>(v as int),
            Err(e) => delta_outcome(current as int, text@) == Err::<int, DeltaError>(e),
        },
{
    let len: usize = text.unicode_len();
    if len == 0 {
        return Err(DeltaError::InvalidCount);
    }
    let amount: i32 = match read_integer(text, 1) {
        Some(v) => v,
        None => {
            return Err(DeltaError::InvalidCount);
        },
    };
    let operator: char = text.get_char(0);
    let wide: i64 = if operator == '+' {
        current as i64 + amount as i64
    } else if operator == '-' {
        current as i64 - amount as i64
    } else if operator == '@' {
        amount as i64
    } else {
        return Err(DeltaError::InvalidOperator);
    };
    if wide < -0x8000_0000 || wide > 0x7fff_ffff {
        Err(DeltaError::InvalidCount)
    } else {
        Ok(wide as i32)
    }
}

} // verus!
