//! Conversion of floating-point values to integers, in two modes: a checked
//! one that is defined on every input, and an unchecked one for callers who
//! already know that the value converts exactly.

use crate::float::{FloatModel, FloatValue};
use crate::int_type::{
    lemma_saturated_in_range, max_value, min_value, saturate, saturated, type_max, type_min,
    Signedness, Width,
};
use crate::integer::{IntegerModel, IntegerValue};
use vstd::prelude::*;

verus! {

/// How a conversion treats the inputs that the target type cannot hold.
#[derive(Clone, Copy, Debug, PartialEq, Eq, Structural)]
pub enum ConversionMode {
    /// Out-of-range values saturate, NaN becomes zero.
    Checked,
    /// The caller vouches that the value is finite and in range.
    Unchecked,
}

impl FloatModel {
    /// The result of the checked conversion to an integer type: NaN gives
    /// zero, an infinity gives the bound of the type on its side, and a
    /// finite value is truncated toward zero and then saturated.
    pub open spec fn checked_value(self, width: Width, signedness: Signedness) -> int {
        if self.is_nan() {
            0
        } else if self.is_infinite() {
            if self.negative {
                type_min(width, signedness)
            } else {
                type_max(width, signedness)
            }
        } else {
            saturated(self.truncated(), width, signedness)
        }
    }

    /// The integer that the checked conversion returns.
    pub open spec fn cast_checked(self, width: Width, signedness: Signedness) -> IntegerModel {
        IntegerModel { width, signedness, value: self.checked_value(width, signedness) }
    }

    /// The integer that the unchecked conversion returns: the bare
    /// truncation. It is a value of the target type only where
    /// `converts_exactly` holds.
    pub open spec fn cast_unchecked(self, width: Width, signedness: Signedness) -> IntegerModel {
        IntegerModel { width, signedness, value: self.truncated() }
    }
}

/// Converts a floating-point value to an integer type, for every input:
/// the fractional part is dropped; a value beyond the type's range, and an
/// infinity, becomes the bound on its side; NaN becomes zero.
pub fn cast_float_checked(
    value: FloatValue,
    target_width: Width,
    target_signedness: Signedness,
) -> (result: IntegerValue)
    ensures
        result@ == value@.cast_checked(target_width, target_signedness),
        result@.wf(),
{
    let converted: i128 = if value.is_nan() {
        0
    } else {
        let magnitude: Option<u64> = if value.is_infinite() {
            None
        } else {
            value.magnitude()
        };
        match magnitude {
            Some(m) => {
                let truncated: i128 = if value.is_negative() {
                    -(m as i128)
                } else {
                    m as i128
                };
                saturate(truncated, target_width, target_signedness)
            },
            None => if value.is_negative() {
                min_value(target_width, target_signedness)
            } else {
                max_value(target_width, target_signedness)
            },
        }
    };
    proof {
        lemma_saturated_in_range(value@.truncated(), target_width, target_signedness);
    }
    IntegerValue::new(target_width, target_signedness, converted).unwrap()
}

/// Converts a floating-point value to an integer type without any check.
/// The caller must know that the value is finite and that its truncation
/// is a value of the target type; the result is then the truncation, as in
/// the checked conversion. Nothing is defined for other inputs, which is
/// why they are excluded.
pub fn cast_float_unchecked(
    value: FloatValue,
    target_width: Width,
    target_signedness: Signedness,
) -> (result: IntegerValue)
    requires
        value@.converts_exactly(target_width, target_signedness),
    ensures
        result@ == value@.cast_unchecked(target_width, target_signedness),
        result@ == value@.cast_checked(target_width, target_signedness),
        result@.wf(),
{
    let m: u64 = value.magnitude().unwrap();
    let truncated: i128 = if value.is_negative() {
        -(m as i128)
    } else {
        m as i128
    };
    IntegerValue::new(target_width, target_signedness, truncated).unwrap()
}

/// Converts a floating-point value to an integer type in the given mode.
/// The unchecked mode is open only to values that convert exactly; on
/// those the two modes agree.
pub fn cast_float(
    value: FloatValue,
    target_width: Width,
    target_signedness: Signedness,
    mode: ConversionMode,
) -> (result: IntegerValue)
    requires
        mode is Unchecked ==> value@.converts_exactly(target_width, target_signedness),
    ensures
        result@ == value@.cast_checked(target_width, target_signedness),
        result@.wf(),
{
    match mode {
        ConversionMode::Checked => cast_float_checked(value, target_width, target_signedness),
        ConversionMode::Unchecked => cast_float_unchecked(value, target_width, target_signedness),
    }
}

/// On a finite value whose truncation the target type can hold, the
/// unchecked conversion and the checked one return the same integer, which
/// is that truncation.
pub proof fn lemma_unchecked_agrees_with_checked(
    x: FloatModel,
    width: Width,
    signedness: Signedness,
)
    requires
        x.converts_exactly(width, signedness),
    ensures
        x.cast_unchecked(width, signedness) == x.cast_checked(width, signedness),
        x.checked_value(width, signedness) == x.truncated(),
{
}

/// The checked conversion always returns a value of the target type.
pub proof fn lemma_checked_value_in_range(x: FloatModel, width: Width, signedness: Signedness)
    ensures
        x.cast_checked(width, signedness).wf(),
{
}

} // verus!
