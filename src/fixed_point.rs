//! Fixed-point sample and level arithmetic.
//!
//! Samples are signed Q15 fractions (1 sign bit, 15 fraction bits), envelope
//! levels and coefficients are signed Q31 fractions, and oscillator phases are
//! unsigned U8F24 numbers. Each value is held as its raw bits; the arithmetic
//! itself is done by the `fixed` crate.
use fixed::types::{I1F15, I1F31, U8F24};
use vstd::prelude::*;

verus! {

/// Clamps a mathematical integer into the range of `i16`.
pub open spec fn clamp16(x: int) -> int {
    if x < i16::MIN { i16::MIN as int } else if x > i16::MAX { i16::MAX as int } else { x }
}

/// Clamps a mathematical integer into the range of `i32`.
pub open spec fn clamp32(x: int) -> int {
    if x < i32::MIN { i32::MIN as int } else if x > i32::MAX { i32::MAX as int } else { x }
}

/// Product of two Q15 values, rounded towards negative infinity.
pub open spec fn q15_mul_spec(a: int, b: int) -> int {
    (a * b) / 0x8000
}

/// Product of two Q31 values, rounded towards negative infinity.
pub open spec fn q31_mul_spec(a: int, b: int) -> int {
    (a * b) / 0x8000_0000
}

/// A signed Q15 fixed-point sample: the value is `bits / 2^15`.
#[derive(Clone, Copy, Debug, PartialEq, Eq, Structural)]
pub struct Q15 {
    pub bits: i16,
}

impl Q15 {
    /// The sample 0.0.
    pub fn zero() -> (r: Q15)
        ensures
            r.bits == 0,
    {
        Q15 { bits: 0 }
    }

    /// The sample with the given raw bits.
    pub fn from_bits(bits: i16) -> (r: Q15)
        ensures
            r.bits == bits,
    {
        Q15 { bits }
    }

    /// The raw bits of this sample.
    pub fn to_bits(self) -> (r: i16)
        ensures
            r == self.bits,
    {
        self.bits
    }
}

/// Relies on `fixed`'s `I1F15::saturating_add`: the exact sum clamped to the Q15 range.
#[verifier::external_body]
pub(crate) fn q15_saturating_add(a: i16, b: i16) -> (r: i16)
    ensures
        r == clamp16(a + b),
{
    I1F15::from_bits(a).saturating_add(I1F15::from_bits(b)).to_bits()
}

/// Relies on `fixed`'s `Mul` for `I1F15`: the product shifted right by 15 bits,
/// which rounds towards negative infinity. Only -1.0 × -1.0 overflows.
#[verifier::external_body]
pub(crate) fn q15_mul(a: i16, b: i16) -> (r: i16)
    requires
        !(a == i16::MIN && b == i16::MIN),
    ensures
        r == q15_mul_spec(a as int, b as int),
{
    (I1F15::from_bits(a) * I1F15::from_bits(b)).to_bits()
}

/// Relies on `fixed`'s `I1F15::saturating_neg`: the negation, with -1.0 mapped to the largest value.
#[verifier::external_body]
pub(crate) fn q15_saturating_neg(a: i16) -> (r: i16)
    ensures
        r == clamp16(-a),
{
    I1F15::from_bits(a).saturating_neg().to_bits()
}

/// Relies on `fixed`'s `I1F15::saturating_abs`: the absolute value, with -1.0 mapped to the largest value.
#[verifier::external_body]
pub(crate) fn q15_saturating_abs(a: i16) -> (r: i16)
    ensures
        r == clamp16(if a < 0 { -a } else { a as int }),
{
    I1F15::from_bits(a).saturating_abs().to_bits()
}

/// Relies on `fixed`'s `Shr<u32>` for `I1F15`: an arithmetic right shift of the bits,
/// which rounds towards negative infinity.
#[verifier::external_body]
pub(crate) fn q15_shr(a: i16, shift: u32) -> (r: i16)
    requires
        shift < 16,
    ensures
        r == a as int / vstd::arithmetic::power2::pow2(shift as nat) as int,
{
    (I1F15::from_bits(a) >> shift).to_bits()
}

/// Relies on `fixed`'s `I1F31::saturating_mul_add`: `a × m + c` with the product
/// rounded towards negative infinity and the whole result clamped to the Q31 range.
#[verifier::external_body]
pub(crate) fn q31_saturating_mul_add(a: i32, m: i32, c: i32) -> (r: i32)
    ensures
        r == clamp32(q31_mul_spec(a as int, m as int) + c),
{
    I1F31::from_bits(a).saturating_mul_add(I1F31::from_bits(m), I1F31::from_bits(c)).to_bits()
}

/// Relies on `fixed`'s `I1F31::saturating_mul`: the product rounded towards negative
/// infinity and clamped to the Q31 range.
#[verifier::external_body]
pub(crate) fn q31_saturating_mul(a: i32, b: i32) -> (r: i32)
    ensures
        r == clamp32(q31_mul_spec(a as int, b as int)),
{
    I1F31::from_bits(a).saturating_mul(I1F31::from_bits(b)).to_bits()
}

/// Relies on `fixed`'s `LossyFrom<I1F31>` for `I1F15`: the 16 low fraction bits are
/// discarded, which rounds towards negative infinity.
#[verifier::external_body]
pub(crate) fn q31_to_q15(a: i32) -> (r: i16)
    ensures
        r == a as int / 0x1_0000,
{
    <I1F15 as fixed::traits::LossyFrom<I1F31>>::lossy_from(I1F31::from_bits(a)).to_bits()
}

/// Relies on `fixed`'s `U8F24::to_num::<u8>`: the integer part of the phase.
#[verifier::external_body]
pub(crate) fn u8f24_integer_part(phase: u32) -> (r: u8)
    ensures
        r == phase as int / 0x100_0000,
{
    U8F24::from_bits(phase).to_num::<u8>()
}

/// Relies on `fixed`'s `U8F24::wrapping_add`: the sum modulo 2^32 of the bits.
#[verifier::external_body]
pub(crate) fn u8f24_wrapping_add(a: u32, b: u32) -> (r: u32)
    ensures
        r == (a as int + b as int) % 0x1_0000_0000,
{
    U8F24::from_bits(a).wrapping_add(U8F24::from_bits(b)).to_bits()
}

} // verus!
