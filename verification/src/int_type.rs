//! Integer types as data: a bit width and a signedness, with the range of
//! values that each combination represents and the two ways of forcing an
//! arbitrary integer into that range (wrapping and saturating).

use vstd::arithmetic::div_mod::lemma_mod_equivalence;
use vstd::arithmetic::power2::{lemma2_to64, lemma2_to64_rest, pow2};
use vstd::prelude::*;

verus! {

/// The bit width of a fixed-width integer.
#[derive(Clone, Copy, Debug, PartialEq, Eq, Structural)]
pub enum Width {
    W8,
    W16,
    W32,
    W64,
}

/// Whether a bit pattern is read as a two's-complement signed number or as
/// an unsigned one.
#[derive(Clone, Copy, Debug, PartialEq, Eq, Structural)]
pub enum Signedness {
    Signed,
    Unsigned,
}

impl Width {
    /// The number of bits.
    pub open spec fn bits(self) -> nat {
        match self {
            Width::W8 => 8,
            Width::W16 => 16,
            Width::W32 => 32,
            Width::W64 => 64,
        }
    }

    /// Two to the power of the number of bits: how many bit patterns exist.
    pub open spec fn modulus(self) -> int {
        match self {
            Width::W8 => 0x100,
            Width::W16 => 0x1_0000,
            Width::W32 => 0x1_0000_0000,
            Width::W64 => 0x1_0000_0000_0000_0000,
        }
    }

    /// `modulus` is written with literals; this ties it to the power of two.
    pub proof fn lemma_modulus_is_pow2(self)
        ensures
            self.modulus() == pow2(self.bits()),
    {
        lemma2_to64();
        lemma2_to64_rest();
    }

    /// Returns the number of bits.
    pub fn bit_count(self) -> (n: u32)
        ensures
            n == self.bits(),
    {
        match self {
            Width::W8 => 8,
            Width::W16 => 16,
            Width::W32 => 32,
            Width::W64 => 64,
        }
    }

    /// Returns the pattern whose low `bits` bits are set and no others.
    pub fn mask(self) -> (m: u64)
        ensures
            m == self.modulus() - 1,
    {
        match self {
            Width::W8 => 0xff,
            Width::W16 => 0xffff,
            Width::W32 => 0xffff_ffff,
            Width::W64 => 0xffff_ffff_ffff_ffff,
        }
    }
}

/// The least value of the integer type with the given width and signedness.
pub open spec fn type_min(width: Width, signedness: Signedness) -> int {
    match signedness {
        Signedness::Unsigned => 0,
        Signedness::Signed => -(width.modulus() / 2),
    }
}

/// The greatest value of the integer type with the given width and
/// signedness.
pub open spec fn type_max(width: Width, signedness: Signedness) -> int {
    match signedness {
        Signedness::Unsigned => width.modulus() - 1,
        Signedness::Signed => width.modulus() / 2 - 1,
    }
}

/// Whether `v` is a value of the integer type.
pub open spec fn in_range(v: int, width: Width, signedness: Signedness) -> bool {
    type_min(width, signedness) <= v <= type_max(width, signedness)
}

/// Two's-complement wrapping: the value of the type that differs from `v`
/// by a multiple of `2^bits`.
pub open spec fn wrapped(v: int, width: Width, signedness: Signedness) -> int {
    let low = v % width.modulus();
    if signedness is Signed && low > type_max(width, signedness) {
        low - width.modulus()
    } else {
        low
    }
}

/// Saturation: the value of the type that is nearest to `v`.
pub open spec fn saturated(v: int, width: Width, signedness: Signedness) -> int {
    if v < type_min(width, signedness) {
        type_min(width, signedness)
    } else if v > type_max(width, signedness) {
        type_max(width, signedness)
    } else {
        v
    }
}

/// Returns the least value of the integer type.
pub fn min_value(width: Width, signedness: Signedness) -> (v: i128)
    ensures
        v == type_min(width, signedness),
{
    match signedness {
        Signedness::Unsigned => 0,
        Signedness::Signed => match width {
            Width::W8 => -0x80,
            Width::W16 => -0x8000,
            Width::W32 => -0x8000_0000,
            Width::W64 => -0x8000_0000_0000_0000,
        },
    }
}

/// Returns the greatest value of the integer type.
pub fn max_value(width: Width, signedness: Signedness) -> (v: i128)
    ensures
        v == type_max(width, signedness),
{
    match signedness {
        Signedness::Unsigned => match width {
            Width::W8 => 0xff,
            Width::W16 => 0xffff,
            Width::W32 => 0xffff_ffff,
            Width::W64 => 0xffff_ffff_ffff_ffff,
        },
        Signedness::Signed => match width {
            Width::W8 => 0x7f,
            Width::W16 => 0x7fff,
            Width::W32 => 0x7fff_ffff,
            Width::W64 => 0x7fff_ffff_ffff_ffff,
        },
    }
}

/// Clamps `v` to the nearest value of the integer type.
pub fn saturate(v: i128, width: Width, signedness: Signedness) -> (r: i128)
    ensures
        r == saturated(v as int, width, signedness),
{
    let lo: i128 = min_value(width, signedness);
    let hi: i128 = max_value(width, signedness);
    if v < lo {
        lo
    } else if v > hi {
        hi
    } else {
        v
    }
}

/// The wrapped value lies in the type's range and differs from the input by
/// a multiple of `2^bits`.
pub proof fn lemma_wrapped_in_range_and_congruent(v: int, width: Width, signedness: Signedness)
    ensures
        in_range(wrapped(v, width, signedness), width, signedness),
        (wrapped(v, width, signedness) - v) % width.modulus() == 0,
{
    match width {
        Width::W8 => {},
        Width::W16 => {},
        Width::W32 => {},
        Width::W64 => {},
    }
}

/// No other value of the type differs from the input by a multiple of
/// `2^bits`: wrapping is determined by range and congruence alone.
pub proof fn lemma_wrapped_unique(v: int, r: int, width: Width, signedness: Signedness)
    requires
        in_range(r, width, signedness),
        (r - v) % width.modulus() == 0,
    ensures
        r == wrapped(v, width, signedness),
{
    lemma_mod_equivalence(r, v, width.modulus());
    match width {
        Width::W8 => {},
        Width::W16 => {},
        Width::W32 => {},
        Width::W64 => {},
    }
}

/// A value of the type wraps to itself.
pub proof fn lemma_wrapped_in_range_is_identity(v: int, width: Width, signedness: Signedness)
    requires
        in_range(v, width, signedness),
    ensures
        wrapped(v, width, signedness) == v,
{
    match width {
        Width::W8 => {},
        Width::W16 => {},
        Width::W32 => {},
        Width::W64 => {},
    }
}

/// A value of the type saturates to itself, and every saturated value is a
/// value of the type.
pub proof fn lemma_saturated_in_range(v: int, width: Width, signedness: Signedness)
    ensures
        in_range(saturated(v, width, signedness), width, signedness),
        in_range(v, width, signedness) ==> saturated(v, width, signedness) == v,
{
}

} // verus!
