//! Fixed-width two's-complement integers as values, and the cast from one
//! integer type to another.

use crate::int_type::{
    in_range, lemma_wrapped_in_range_and_congruent, lemma_wrapped_in_range_is_identity,
    lemma_wrapped_unique, max_value, min_value, type_max, wrapped, Signedness, Width,
};
use vstd::arithmetic::div_mod::{
    lemma_fundamental_div_mod, lemma_mod_add_multiples_vanish, lemma_mod_bound,
    lemma_mod_equivalence, lemma_mod_multiples_basic, lemma_mod_multiples_vanish,
    lemma_small_mod,
};
use vstd::prelude::*;

verus! {

/// What an [`IntegerValue`] stands for: an integer together with the type
/// it belongs to.
pub struct IntegerModel {
    pub width: Width,
    pub signedness: Signedness,
    pub value: int,
}

impl IntegerModel {
    /// The value is one that the type can represent.
    pub open spec fn wf(self) -> bool {
        in_range(self.value, self.width, self.signedness)
    }

    /// The raw bit pattern, read as an unsigned number: negative values
    /// are stored as their two's complement.
    pub open spec fn bit_pattern(self) -> nat {
        if self.value < 0 {
            (self.value + self.width.modulus()) as nat
        } else {
            self.value as nat
        }
    }

    /// The integer of the given type whose raw bit pattern is `bits`.
    pub open spec fn from_bit_pattern(width: Width, signedness: Signedness, bits: nat) -> Self {
        IntegerModel {
            width,
            signedness,
            value: if signedness is Signed && bits > type_max(width, signedness) {
                bits - width.modulus()
            } else {
                bits as int
            },
        }
    }

    /// The cast to another integer type: the value wraps modulo
    /// `2^bits` of the target and is read under the target's signedness.
    pub open spec fn cast(self, width: Width, signedness: Signedness) -> Self {
        IntegerModel { width, signedness, value: wrapped(self.value, width, signedness) }
    }

    /// What the cast does to the raw bit pattern: a narrower or equally
    /// wide target keeps the low bits; a wider target copies the pattern
    /// and fills the new high bits with ones if the source value is
    /// negative, with zeros otherwise.
    pub open spec fn resized_bit_pattern(self, width: Width) -> nat {
        if width.bits() <= self.width.bits() {
            self.bit_pattern() % (width.modulus() as nat)
        } else if self.value < 0 {
            (self.bit_pattern() + width.modulus() - self.width.modulus()) as nat
        } else {
            self.bit_pattern()
        }
    }
}

/// A fixed-width integer: a width, a signedness and a raw bit pattern of
/// exactly that many bits.
#[derive(Clone, Copy, Debug, PartialEq, Eq, Structural)]
pub struct IntegerValue {
    width: Width,
    signedness: Signedness,
    raw: u64,
}

impl View for IntegerValue {
    type V = IntegerModel;

    closed spec fn view(&self) -> IntegerModel {
        IntegerModel::from_bit_pattern(self.width, self.signedness, self.raw as nat)
    }
}

impl IntegerValue {
    #[verifier::type_invariant]
    spec fn raw_fits_width(self) -> bool {
        self.raw < self.width.modulus()
    }

    /// Builds the integer of the given type with the given value, if the
    /// type can represent it.
    pub fn new(width: Width, signedness: Signedness, value: i128) -> (result: Option<Self>)
        ensures
            result is Some <==> in_range(value as int, width, signedness),
            result matches Some(r) ==> r@.wf() && r@ == (IntegerModel {
                width,
                signedness,
                value: value as int,
            }),
    {
        if min_value(width, signedness) <= value && value <= max_value(width, signedness) {
            let raw: u64 = if value < 0 {
                (value + (width.mask() as i128 + 1)) as u64
            } else {
                value as u64
            };
            Some(IntegerValue { width, signedness, raw })
        } else {
            None
        }
    }

    /// Builds the integer of the given type from its raw bit pattern, if
    /// the pattern has no bit set beyond the type's width.
    pub fn from_bits(width: Width, signedness: Signedness, bits: u64) -> (result: Option<Self>)
        ensures
            result is Some <==> bits < width.modulus(),
            result matches Some(r) ==> r@.wf() && r@ == IntegerModel::from_bit_pattern(
                width,
                signedness,
                bits as nat,
            ),
    {
        if bits <= width.mask() {
            Some(IntegerValue { width, signedness, raw: bits })
        } else {
            None
        }
    }

    /// Returns the bit width.
    pub fn width(&self) -> (w: Width)
        ensures
            w == self@.width,
    {
        self.width
    }

    /// Returns the signedness.
    pub fn signedness(&self) -> (s: Signedness)
        ensures
            s == self@.signedness,
    {
        self.signedness
    }

    /// Returns the raw bit pattern.
    pub fn bits(&self) -> (b: u64)
        ensures
            self@.wf(),
            b == self@.bit_pattern(),
    {
        proof {
            use_type_invariant(self);
        }
        self.raw
    }

    /// Returns the value that the bit pattern stands for under the
    /// integer's signedness.
    pub fn value(&self) -> (v: i128)
        ensures
            self@.wf(),
            v == self@.value,
    {
        proof {
            use_type_invariant(self);
        }
        if self.is_negative() {
            self.raw as i128 - (self.width.mask() as i128 + 1)
        } else {
            self.raw as i128
        }
    }

    /// Whether the sign bit counts and is set.
    pub fn is_negative(&self) -> (b: bool)
        ensures
            b == (self@.value < 0),
    {
        proof {
            use_type_invariant(self);
        }
        match self.signedness {
            Signedness::Signed => self.raw > self.width.mask() / 2,
            Signedness::Unsigned => false,
        }
    }
}

/// Casts an integer to the integer type with the given width and
/// signedness. A narrower target keeps the low bits of the raw bit pattern;
/// a wider target extends it with copies of the sign bit if the source is
/// signed, with zeros otherwise. The pattern is then read under the
/// target's signedness. Every input has a result.
pub fn cast_int(
    value: IntegerValue,
    target_width: Width,
    target_signedness: Signedness,
) -> (result: IntegerValue)
    ensures
        result@ == value@.cast(target_width, target_signedness),
        result@.wf(),
        result@.bit_pattern() == value@.resized_bit_pattern(target_width),
{
    proof {
        use_type_invariant(&value);
        lemma_cast_bit_pattern(value@, target_width, target_signedness);
    }
    let raw: u64 = value.raw;
    let source_mask: u64 = value.width.mask();
    let target_mask: u64 = target_width.mask();
    let resized: u64 = if target_mask <= source_mask {
        proof {
            lemma_mask_is_mod(raw);
        }
        raw & target_mask
    } else if value.is_negative() {
        proof {
            lemma_sign_fill_is_add(raw);
        }
        raw | (target_mask - source_mask)
    } else {
        raw
    };
    IntegerValue { width: target_width, signedness: target_signedness, raw: resized }
}

/// The cast, stated on values, and the resizing of the raw bit pattern are
/// the same operation: the result of the cast is a value of the target
/// type, and its bit pattern is the resized pattern of the source.
pub proof fn lemma_cast_bit_pattern(m: IntegerModel, width: Width, signedness: Signedness)
    requires
        m.wf(),
    ensures
        m.cast(width, signedness).wf(),
        m.cast(width, signedness).bit_pattern() == m.resized_bit_pattern(width),
        m.cast(width, signedness) == IntegerModel::from_bit_pattern(
            width,
            signedness,
            m.resized_bit_pattern(width),
        ),
{
    let ms = m.width.modulus();
    let mt = width.modulus();
    let v = m.value;
    let b = m.bit_pattern() as int;
    lemma_mod_bound(v, mt);
    if width.bits() <= m.width.bits() {
        let ratio = ms / mt;
        assert(ms == mt * ratio && ratio >= 1);
        if v < 0 {
            lemma_mod_multiples_vanish(ratio, v, mt);
        }
        assert(b % mt == v % mt);
    } else {
        assert(2 * ms <= mt);
        if v < 0 {
            lemma_mod_add_multiples_vanish(v, mt);
            lemma_small_mod((v + mt) as nat, mt as nat);
        } else {
            lemma_small_mod(v as nat, mt as nat);
        }
    }
}

/// Casting an integer to its own type changes nothing.
pub proof fn lemma_cast_to_own_type_is_identity(m: IntegerModel)
    requires
        m.wf(),
    ensures
        m.cast(m.width, m.signedness) == m,
{
    lemma_wrapped_in_range_is_identity(m.value, m.width, m.signedness);
}

/// Casting to a type that is at least as wide and then back to the type
/// one started from gives the integer one started with, whatever the
/// signedness of the type in between.
pub proof fn lemma_widen_then_narrow_is_identity(
    m: IntegerModel,
    width: Width,
    signedness: Signedness,
)
    requires
        m.wf(),
        m.width.bits() <= width.bits(),
    ensures
        m.cast(width, signedness).cast(m.width, m.signedness) == m,
{
    let mid = wrapped(m.value, width, signedness);
    lemma_wrapped_in_range_and_congruent(m.value, width, signedness);
    // A multiple of the wider modulus is a multiple of the narrower one.
    assert((mid - m.value) % m.width.modulus() == 0) by {
        let q = (mid - m.value) / width.modulus();
        lemma_fundamental_div_mod(mid - m.value, width.modulus());
        let ratio = width.modulus() / m.width.modulus();
        assert(width.modulus() == m.width.modulus() * ratio);
        assert(mid - m.value == m.width.modulus() * (ratio * q)) by (nonlinear_arith)
            requires
                mid - m.value == width.modulus() * q,
                width.modulus() == m.width.modulus() * ratio,
        ;
        lemma_mod_multiples_basic(ratio * q, m.width.modulus());
        assert(m.width.modulus() * (ratio * q) == (ratio * q) * m.width.modulus())
            by (nonlinear_arith);
    }
    lemma_mod_equivalence(mid, m.value, m.width.modulus());
    lemma_mod_equivalence(m.value, mid, m.width.modulus());
    lemma_wrapped_unique(mid, m.value, m.width, m.signedness);
}

/// Widening loses nothing when the value is not negative, or when the
/// target is at least as wide and has the source's signedness: the cast
/// then keeps the value.
pub proof fn lemma_widening_keeps_value(m: IntegerModel, width: Width, signedness: Signedness)
    requires
        m.wf(),
        (m.width.bits() < width.bits() && m.value >= 0) || (m.width.bits() <= width.bits()
            && signedness == m.signedness),
    ensures
        m.cast(width, signedness).value == m.value,
{
    assert(in_range(m.value, width, signedness));
    lemma_wrapped_in_range_is_identity(m.value, width, signedness);
}

/// Masking with the low bits of a width is reduction modulo `2^bits`.
proof fn lemma_mask_is_mod(x: u64)
    by (bit_vector)
    ensures
        x & 0xff == x % 0x100,
        x & 0xffff == x % 0x1_0000,
        x & 0xffff_ffff == x % 0x1_0000_0000,
        x & 0xffff_ffff_ffff_ffff == x,
{
}

/// Setting the bits between a narrower and a wider width, in a pattern
/// that fits the narrower one, adds their weight.
proof fn lemma_sign_fill_is_add(x: u64)
    by (bit_vector)
    ensures
        x <= 0xff ==> x | 0xff00 == x + 0xff00,
        x <= 0xff ==> x | 0xffff_ff00 == x + 0xffff_ff00,
        x <= 0xff ==> x | 0xffff_ffff_ffff_ff00 == x + 0xffff_ffff_ffff_ff00,
        x <= 0xffff ==> x | 0xffff_0000 == x + 0xffff_0000,
        x <= 0xffff ==> x | 0xffff_ffff_ffff_0000 == x + 0xffff_ffff_ffff_0000,
        x <= 0xffff_ffff ==> x | 0xffff_ffff_0000_0000 == x + 0xffff_ffff_0000_0000,
{
}

} // verus!
