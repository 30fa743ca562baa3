//! Validation of the three-digit channel-bit-allocation specification.
//!
//! A channel mask is an ordered triple `(red_bits, green_bits, blue_bits)`;
//! each component lies in `[0, 8]` and the three sum to 16, so that every
//! pixel fits exactly one 16-bit packed word.

use vstd::prelude::*;

use crate::errors::FormatError;

verus! {

/// A triple of per-channel bit widths is a valid mask when each component
/// is at most 8 and the components sum to 16.
pub open spec fn valid_mask(m: (u8, u8, u8)) -> bool {
    m.0 <= 8 && m.1 <= 8 && m.2 <= 8 && m.0 + m.1 + m.2 == 16
}

/// The character is a decimal digit.
pub open spec fn is_digit_char(c: char) -> bool {
    48 <= c as u32 <= 57
}

/// Numeric value of a decimal digit character.
pub open spec fn digit_of(c: char) -> u8
    recommends
        is_digit_char(c),
{
    (c as u32 - 48) as u8
}

/// The string consists of exactly three decimal digit characters.
pub open spec fn three_digits(s: Seq<char>) -> bool {
    s.len() == 3 && is_digit_char(s[0]) && is_digit_char(s[1]) && is_digit_char(s[2])
}

/// The mask spelled by a three-digit string, in (red, green, blue) order.
pub open spec fn mask_of(s: Seq<char>) -> (u8, u8, u8)
    recommends
        three_digits(s),
{
    (digit_of(s[0]), digit_of(s[1]), digit_of(s[2]))
}

/// Parses and validates a mask specification string.
///
/// Succeeds exactly on strings of three decimal digits, each at most 8,
/// summing to 16, and then returns the three digits in order. Each failure
/// names the offending character span.
pub fn validate_format(format: &str) -> (r: Result<(u8, u8, u8), FormatError>)
    ensures
        r is Ok <==> three_digits(format@) && valid_mask(mask_of(format@)),
        r matches Ok(m) ==> m == mask_of(format@),
        !three_digits(format@) ==> r == Err::<(u8, u8, u8), FormatError>(
            FormatError::InvalidMaskSize { start: 0, end: format@.len() as usize },
        ),
        three_digits(format@) && digit_of(format@[0]) > 8 ==> r == Err::<(u8, u8, u8), FormatError>(
            FormatError::InvalidMaskDigit { start: 0, end: 1 },
        ),
        three_digits(format@) && digit_of(format@[0]) <= 8 && digit_of(format@[1]) > 8 ==> r
            == Err::<(u8, u8, u8), FormatError>(FormatError::InvalidMaskDigit { start: 1, end: 2 }),
        three_digits(format@) && digit_of(format@[0]) <= 8 && digit_of(format@[1]) <= 8
            && digit_of(format@[2]) > 8 ==> r == Err::<(u8, u8, u8), FormatError>(
            FormatError::InvalidMaskDigit { start: 2, end: 3 },
        ),
        three_digits(format@) && digit_of(format@[0]) <= 8 && digit_of(format@[1]) <= 8
            && digit_of(format@[2]) <= 8 && digit_of(format@[0]) + digit_of(format@[1])
            + digit_of(format@[2]) != 16 ==> r == Err::<(u8, u8, u8), FormatError>(
            FormatError::InvalidMaskSum { start: 0, end: 3 },
        ),
{
    let n = format.unicode_len();
    if n != 3 {
        return Err(FormatError::InvalidMaskSize { start: 0, end: n });
    }
    let v0 = format.get_char(0) as u32;
    let v1 = format.get_char(1) as u32;
    let v2 = format.get_char(2) as u32;
    if v0 < 48 || v0 > 57 || v1 < 48 || v1 > 57 || v2 < 48 || v2 > 57 {
        return Err(FormatError::InvalidMaskSize { start: 0, end: 3 });
    }
    let d0 = (v0 - 48) as u8;
    let d1 = (v1 - 48) as u8;
    let d2 = (v2 - 48) as u8;
    if d0 > 8 {
        return Err(FormatError::InvalidMaskDigit { start: 0, end: 1 });
    }
    if d1 > 8 {
        return Err(FormatError::InvalidMaskDigit { start: 1, end: 2 });
    }
    if d2 > 8 {
        return Err(FormatError::InvalidMaskDigit { start: 2, end: 3 });
    }
    if d0 + d1 + d2 != 16 {
        return Err(FormatError::InvalidMaskSum { start: 0, end: 3 });
    }
    Ok((d0, d1, d2))
}

} // verus!

