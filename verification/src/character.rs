//! Conversion of integers to characters: a character is a Unicode scalar
//! value, and only a code in the scalar ranges has one.

use crate::int_type::{Signedness, Width};
use crate::integer::{IntegerModel, IntegerValue};
use vstd::prelude::*;

verus! {

/// Why a conversion was refused.
#[derive(Clone, Copy, Debug, PartialEq, Eq, Structural)]
pub enum ConversionError {
    /// The code is a surrogate (`0xD800..=0xDFFF`) or lies above `0x10FFFF`.
    InvalidCharCode,
}

/// A character code that passed the check is a `char`.
pub type CharCode = char;

/// Whether `code` is a Unicode scalar value: any code point up to
/// `0x10FFFF` outside the surrogate range.
pub open spec fn is_scalar_value(code: int) -> bool {
    0 <= code <= 0xD7FF || 0xE000 <= code <= 0x10FFFF
}

/// The character with the given code, or the error if the code is not a
/// Unicode scalar value.
pub open spec fn char_of_code(code: int) -> Result<CharCode, ConversionError> {
    if is_scalar_value(code) {
        Ok(code as char)
    } else {
        Err(ConversionError::InvalidCharCode)
    }
}

/// `char::from_u32` of the standard library, which is documented to return
/// `None` exactly when its argument is not a valid value for a `char`, and
/// otherwise the `char` with that code. The valid values are the Unicode
/// scalar values.
pub assume_specification[ char::from_u32 ](i: u32) -> (result: Option<char>)
    ensures
        result == if is_scalar_value(i as int) {
            Some(i as char)
        } else {
            None
        },
;

/// Converts a 32-bit code to the character with that code. Fails with
/// `InvalidCharCode` exactly when the code is not a Unicode scalar value.
pub fn cast_to_char(code: u32) -> (result: Result<CharCode, ConversionError>)
    ensures
        result == char_of_code(code as int),
{
    match char::from_u32(code) {
        Some(c) => Ok(c),
        None => Err(ConversionError::InvalidCharCode),
    }
}

/// Converts an integer of any type to the character whose code is the
/// integer's value. Fails with `InvalidCharCode` exactly when the value is
/// not a Unicode scalar value; a negative value never is.
pub fn cast_integer_to_char(value: IntegerValue) -> (result: Result<CharCode, ConversionError>)
    ensures
        result == char_of_code(value@.value),
{
    let v: i128 = value.value();
    if 0 <= v && v <= 0xffff_ffff {
        cast_to_char(v as u32)
    } else {
        Err(ConversionError::InvalidCharCode)
    }
}

/// The character that a scalar value converts to has that value as its
/// code, and the code of every character is a scalar value that converts
/// back to the character.
pub proof fn lemma_char_of_code_round_trip(code: int, c: char)
    ensures
        is_scalar_value(code) ==> (char_of_code(code) matches Ok(r) && r as int == code),
        is_scalar_value(c as int),
        char_of_code(c as int) == Ok::<CharCode, ConversionError>(c),
{
}

/// Every value of the unsigned 8-bit type is a Unicode scalar value, so
/// the conversion of such an integer to a character always succeeds.
pub proof fn lemma_unsigned_byte_is_scalar_value(m: IntegerModel)
    requires
        m.wf(),
        m.width == Width::W8,
        m.signedness == Signedness::Unsigned,
    ensures
        is_scalar_value(m.value),
        char_of_code(m.value) is Ok,
{
}

} // verus!
