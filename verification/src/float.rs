//! IEEE-754 binary floating-point values, held as their bit patterns, and
//! their conversion to integers: the sign, exponent and fraction fields, the
//! classes of values, and truncation toward zero.

use crate::int_type::{in_range, max_value, min_value, Signedness, Width};
use vstd::arithmetic::div_mod::{lemma_basic_div, lemma_fundamental_div_mod, lemma_mod_bound};
use vstd::arithmetic::power2::{
    lemma2_to64, lemma2_to64_rest, lemma_pow2_adds, lemma_pow2_pos, lemma_pow2_strictly_increases,
    pow2,
};
use vstd::bits::{lemma_u64_shl_is_mul, lemma_u64_shr_is_div};
use vstd::prelude::*;

verus! {

/// The two interchange formats that a [`FloatValue`] can have.
#[derive(Clone, Copy, Debug, PartialEq, Eq, Structural)]
pub enum FloatFormat {
    /// 32 bits: 1 sign bit, 8 exponent bits, 23 fraction bits.
    Binary32,
    /// 64 bits: 1 sign bit, 11 exponent bits, 52 fraction bits.
    Binary64,
}

impl FloatFormat {
    /// The number of bits of the fraction field.
    pub open spec fn fraction_bits(self) -> nat {
        match self {
            FloatFormat::Binary32 => 23,
            FloatFormat::Binary64 => 52,
        }
    }

    /// Two to the power of `fraction_bits`: the weight of the implicit
    /// leading bit of a normal number's significand.
    pub open spec fn fraction_modulus(self) -> nat {
        match self {
            FloatFormat::Binary32 => 0x80_0000,
            FloatFormat::Binary64 => 0x10_0000_0000_0000,
        }
    }

    /// The exponent field with all bits set, which marks infinities and
    /// NaNs.
    pub open spec fn exponent_limit(self) -> nat {
        match self {
            FloatFormat::Binary32 => 0xff,
            FloatFormat::Binary64 => 0x7ff,
        }
    }

    /// What is subtracted from the exponent field to get the exponent.
    pub open spec fn bias(self) -> int {
        match self {
            FloatFormat::Binary32 => 127,
            FloatFormat::Binary64 => 1023,
        }
    }
}

/// What a [`FloatValue`] stands for: the three fields of the encoding.
/// A finite value is `(-1)^negative * significand * 2^scale`.
pub struct FloatModel {
    pub format: FloatFormat,
    pub negative: bool,
    pub exponent: nat,
    pub fraction: nat,
}

impl FloatModel {
    /// The fields fit their widths.
    pub open spec fn wf(self) -> bool {
        &&& self.exponent <= self.format.exponent_limit()
        &&& self.fraction < self.format.fraction_modulus()
    }

    /// Not a number: all exponent bits set and a fraction that is not zero.
    pub open spec fn is_nan(self) -> bool {
        self.exponent == self.format.exponent_limit() && self.fraction != 0
    }

    /// Positive or negative infinity: all exponent bits set and a zero
    /// fraction.
    pub open spec fn is_infinite(self) -> bool {
        self.exponent == self.format.exponent_limit() && self.fraction == 0
    }

    /// Neither infinite nor NaN.
    pub open spec fn is_finite(self) -> bool {
        self.exponent < self.format.exponent_limit()
    }

    /// The significand of a finite value as an integer: the fraction, with
    /// the implicit leading bit unless the value is subnormal or zero.
    pub open spec fn significand(self) -> nat {
        if self.exponent == 0 {
            self.fraction
        } else {
            self.format.fraction_modulus() + self.fraction
        }
    }

    /// The power of two that one unit of the significand is worth.
    pub open spec fn scale(self) -> int {
        (if self.exponent == 0 {
            1
        } else {
            self.exponent as int
        }) - self.format.bias() - self.format.fraction_bits()
    }

    /// The integer part of the magnitude of a finite value:
    /// `significand * 2^scale` rounded down.
    pub open spec fn truncated_magnitude(self) -> nat {
        if self.scale() >= 0 {
            self.significand() * pow2(self.scale() as nat)
        } else {
            self.significand() / pow2((-self.scale()) as nat)
        }
    }

    /// A finite value with its fractional part dropped: rounded toward
    /// zero.
    pub open spec fn truncated(self) -> int {
        if self.negative {
            -(self.truncated_magnitude() as int)
        } else {
            self.truncated_magnitude() as int
        }
    }

    /// Whether the value is finite and its truncation is a value of the
    /// integer type: the inputs on which a conversion needs no check.
    pub open spec fn converts_exactly(self, width: Width, signedness: Signedness) -> bool {
        self.is_finite() && in_range(self.truncated(), width, signedness)
    }
}

/// A floating-point value in one of the two formats, as its bit pattern.
#[derive(Clone, Copy, Debug, PartialEq, Eq, Structural)]
pub enum FloatValue {
    /// The 32 bits of a single-precision value.
    Binary32(u32),
    /// The 64 bits of a double-precision value.
    Binary64(u64),
}

impl View for FloatValue {
    type V = FloatModel;

    open spec fn view(&self) -> FloatModel {
        match *self {
            FloatValue::Binary32(bits) => FloatModel {
                format: FloatFormat::Binary32,
                negative: bits >= 0x8000_0000,
                exponent: ((bits as int / 0x80_0000) % 0x100) as nat,
                fraction: (bits as int % 0x80_0000) as nat,
            },
            FloatValue::Binary64(bits) => FloatModel {
                format: FloatFormat::Binary64,
                negative: bits >= 0x8000_0000_0000_0000,
                exponent: ((bits as int / 0x10_0000_0000_0000) % 0x800) as nat,
                fraction: (bits as int % 0x10_0000_0000_0000) as nat,
            },
        }
    }
}

impl FloatValue {
    /// Returns the format.
    pub fn format(&self) -> (f: FloatFormat)
        ensures
            f == self@.format,
    {
        match self {
            FloatValue::Binary32(_) => FloatFormat::Binary32,
            FloatValue::Binary64(_) => FloatFormat::Binary64,
        }
    }

    /// Whether the sign bit is set.
    pub fn is_negative(&self) -> (b: bool)
        ensures
            b == self@.negative,
    {
        match self {
            FloatValue::Binary32(bits) => *bits >= 0x8000_0000,
            FloatValue::Binary64(bits) => *bits >= 0x8000_0000_0000_0000,
        }
    }

    /// Returns the exponent field.
    pub fn exponent_field(&self) -> (e: u32)
        ensures
            e == self@.exponent,
    {
        match self {
            FloatValue::Binary32(bits) => {
                proof {
                    lemma_fields_binary32(*bits);
                }
                (*bits >> 23) & 0xff
            },
            FloatValue::Binary64(bits) => {
                proof {
                    lemma_fields_binary64(*bits);
                }
                ((*bits >> 52) & 0x7ff) as u32
            },
        }
    }

    /// Returns the fraction field.
    pub fn fraction_field(&self) -> (f: u64)
        ensures
            f == self@.fraction,
    {
        match self {
            FloatValue::Binary32(bits) => {
                proof {
                    lemma_fields_binary32(*bits);
                }
                (*bits & 0x7f_ffff) as u64
            },
            FloatValue::Binary64(bits) => {
                proof {
                    lemma_fields_binary64(*bits);
                }
                *bits & 0xf_ffff_ffff_ffff
            },
        }
    }

    /// Whether the value is not a number.
    pub fn is_nan(&self) -> (b: bool)
        ensures
            b == self@.is_nan(),
    {
        self.exponent_field() == self.exponent_limit() && self.fraction_field() != 0
    }

    /// Whether the value is positive or negative infinity.
    pub fn is_infinite(&self) -> (b: bool)
        ensures
            b == self@.is_infinite(),
    {
        self.exponent_field() == self.exponent_limit() && self.fraction_field() == 0
    }

    /// Whether the value is neither infinite nor NaN.
    pub fn is_finite(&self) -> (b: bool)
        ensures
            b == self@.is_finite(),
    {
        self.exponent_field() < self.exponent_limit()
    }

    /// Whether the value is finite and its truncation toward zero is a
    /// value of the given integer type.
    pub fn converts_exactly(&self, width: Width, signedness: Signedness) -> (b: bool)
        ensures
            b == self@.converts_exactly(width, signedness),
    {
        if !self.is_finite() {
            return false;
        }
        match self.magnitude() {
            Some(m) => {
                let t: i128 = if self.is_negative() {
                    -(m as i128)
                } else {
                    m as i128
                };
                min_value(width, signedness) <= t && t <= max_value(width, signedness)
            },
            None => false,
        }
    }

    /// The exponent field with all bits set.
    fn exponent_limit(&self) -> (e: u32)
        ensures
            e == self@.format.exponent_limit(),
    {
        match self {
            FloatValue::Binary32(_) => 0xff,
            FloatValue::Binary64(_) => 0x7ff,
        }
    }

    /// The integer part of the magnitude of a finite value, or `None` if
    /// it is `2^64` or more, which is beyond every integer type.
    pub(crate) fn magnitude(&self) -> (r: Option<u64>)
        requires
            self@.is_finite(),
        ensures
            r matches Some(m) ==> m == self@.truncated_magnitude(),
            r is None ==> self@.truncated_magnitude() > u64::MAX,
    {
        let exponent: u32 = self.exponent_field();
        let fraction: u64 = self.fraction_field();
        // `point` is the exponent field at which one unit of the
        // significand is worth one: the bias plus the fraction bits.
        let (fraction_bits, point, leading): (u32, u32, u64) = match self {
            FloatValue::Binary32(_) => (23, 150, 0x80_0000),
            FloatValue::Binary64(_) => (52, 1075, 0x10_0000_0000_0000),
        };
        let (significand, exponent): (u64, u32) = if exponent == 0 {
            (fraction, 1)
        } else {
            (fraction + leading, exponent)
        };
        proof {
            lemma2_to64();
            lemma2_to64_rest();
        }
        if exponent >= point {
            let shift: u32 = exponent - point;
            proof {
                lemma_scaled_significand_bounds(
                    significand as nat,
                    fraction_bits as nat,
                    shift as nat,
                );
            }
            if shift <= 63 - fraction_bits {
                proof {
                    lemma_u64_shl_is_mul(significand, shift as u64);
                }
                Some(significand << shift)
            } else {
                None
            }
        } else {
            let shift: u32 = point - exponent;
            if shift >= 64 {
                proof {
                    if shift > 64 {
                        lemma_pow2_strictly_increases(64, shift as nat);
                    }
                    lemma_basic_div(significand as int, pow2(shift as nat) as int);
                }
                Some(0)
            } else {
                proof {
                    lemma_u64_shr_is_div(significand, shift as u64);
                }
                Some(significand >> shift)
            }
        }
    }
}

/// Every bit pattern decodes to fields that fit their widths, and to
/// exactly one of the three classes: NaN, infinite, finite.
pub proof fn lemma_view_is_well_formed(value: FloatValue)
    ensures
        value@.wf(),
        value@.is_nan() || value@.is_infinite() || value@.is_finite(),
        !(value@.is_nan() && value@.is_infinite()),
        !(value@.is_nan() && value@.is_finite()),
        !(value@.is_infinite() && value@.is_finite()),
{
}

/// Truncation rounds toward zero. Where one unit of the significand is
/// worth at least one, the value is an integer and nothing is dropped.
/// Otherwise the truncated magnitude is the greatest integer that is not
/// above the magnitude `significand / 2^(-scale)`.
pub proof fn lemma_truncated_magnitude_is_floor(x: FloatModel)
    ensures
        x.scale() >= 0 ==> x.truncated_magnitude() == x.significand() * pow2(x.scale() as nat),
        x.scale() < 0 ==> x.truncated_magnitude() * pow2((-x.scale()) as nat) <= x.significand()
            < (x.truncated_magnitude() + 1) * pow2((-x.scale()) as nat),
{
    if x.scale() < 0 {
        let d = pow2((-x.scale()) as nat) as int;
        let s = x.significand() as int;
        lemma_pow2_pos((-x.scale()) as nat);
        lemma_fundamental_div_mod(s, d);
        lemma_mod_bound(s, d);
        assert((s / d) * d <= s < (s / d + 1) * d) by (nonlinear_arith)
            requires
                s == d * (s / d) + s % d,
                0 <= s % d < d,
        ;
    }
}

/// A significand below `2^(p+1)` scaled by `2^shift` stays below `2^64`
/// while `shift + p + 1 <= 64`; one of at least `2^p` reaches `2^64` as
/// soon as `shift + p >= 64`.
proof fn lemma_scaled_significand_bounds(significand: nat, p: nat, shift: nat)
    ensures
        significand < pow2(p + 1) && shift + p + 1 <= 64 ==> significand * pow2(shift) < pow2(64),
        significand >= pow2(p) && shift + p >= 64 ==> significand * pow2(shift) >= pow2(64),
{
    lemma_pow2_pos(shift);
    lemma_pow2_pos(p);
    if significand < pow2(p + 1) && shift + p + 1 <= 64 {
        let room = (64 - (p + 1)) as nat;
        lemma_pow2_adds(p + 1, room);
        if shift < room {
            lemma_pow2_strictly_increases(shift, room);
        }
        assert(significand * pow2(shift) < pow2(p + 1) * pow2(room)) by (nonlinear_arith)
            requires
                significand < pow2(p + 1),
                0 < pow2(shift) <= pow2(room),
        ;
    }
    if significand >= pow2(p) && shift + p >= 64 {
        if p <= 64 {
            let need = (64 - p) as nat;
            lemma_pow2_adds(p, need);
            lemma_pow2_pos(need);
            if need < shift {
                lemma_pow2_strictly_increases(need, shift);
            }
            assert(significand * pow2(shift) >= pow2(p) * pow2(need)) by (nonlinear_arith)
                requires
                    significand >= pow2(p),
                    pow2(shift) >= pow2(need) > 0,
            ;
        } else {
            lemma_pow2_strictly_increases(64, p);
            assert(significand * pow2(shift) >= pow2(64)) by (nonlinear_arith)
                requires
                    significand >= pow2(64),
                    pow2(shift) > 0,
            ;
        }
    }
}

/// The shifts and masks that cut a 32-bit pattern into its fields agree
/// with division and remainder.
proof fn lemma_fields_binary32(bits: u32)
    by (bit_vector)
    ensures
        (bits >> 23) & 0xff == (bits / 0x80_0000) % 0x100,
        bits & 0x7f_ffff == bits % 0x80_0000,
{
}

/// The shifts and masks that cut a 64-bit pattern into its fields agree
/// with division and remainder.
proof fn lemma_fields_binary64(bits: u64)
    by (bit_vector)
    ensures
        (bits >> 52) & 0x7ff == (bits / 0x10_0000_0000_0000) % 0x800,
        bits & 0xf_ffff_ffff_ffff == bits % 0x10_0000_0000_0000,
{
}

} // verus!
