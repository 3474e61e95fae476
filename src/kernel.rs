//! The numeric kernel: element-wise fixed-point vector operations and a
//! direct-form-I biquad step, with a portable implementation.
use crate::fixed_point::{
    clamp16, q15_mul, q15_mul_spec, q15_saturating_abs, q15_saturating_add, q15_saturating_neg,
    q15_shr, Q15,
};
use vstd::arithmetic::div_mod::lemma_fundamental_div_mod_converse;
use vstd::arithmetic::power2::{lemma2_to64, lemma_pow2_unfold, pow2};
use vstd::prelude::*;

verus! {

/// Saturating absolute value of a raw Q15 value.
pub open spec fn abs_spec(a: int) -> int {
    clamp16(if a < 0 { -a } else { a })
}

/// A Q15 value shifted left (positive `shift`, saturating) or right
/// (negative `shift`, rounding towards negative infinity).
pub open spec fn shift_spec(a: int, shift: int) -> int {
    if shift >= 0 {
        clamp16(a * pow2(shift as nat))
    } else {
        a / (pow2((-shift) as nat) as int)
    }
}

/// The history of one direct-form-I biquad section: the two previous inputs
/// and the two previous outputs.
#[derive(Clone, Copy, Debug, PartialEq, Eq, Structural)]
pub struct BiquadCascadeDf1StateQ15 {
    pub x1: i16,
    pub x2: i16,
    pub y1: i16,
    pub y2: i16,
}

impl BiquadCascadeDf1StateQ15 {
    /// A section with all-zero history.
    pub fn new() -> (r: BiquadCascadeDf1StateQ15)
        ensures
            r == (BiquadCascadeDf1StateQ15 { x1: 0, x2: 0, y1: 0, y2: 0 }),
    {
        BiquadCascadeDf1StateQ15 { x1: 0, x2: 0, y1: 0, y2: 0 }
    }
}

/// Coefficients of one biquad section, in Q15: `b0`, `b1`, `b2` weight the
/// current and previous inputs, `a1`, `a2` the previous outputs.
#[derive(Clone, Copy, Debug, PartialEq, Eq, Structural)]
pub struct BiquadCoefficients {
    pub b0: i16,
    pub b1: i16,
    pub b2: i16,
    pub a1: i16,
    pub a2: i16,
}

/// The extended-precision accumulator of one biquad step.
pub open spec fn biquad_acc(s: BiquadCascadeDf1StateQ15, c: BiquadCoefficients, x: int) -> int {
    c.b0 * x + c.b1 * s.x1 + c.b2 * s.x2 + c.a1 * s.y1 + c.a2 * s.y2
}

/// The output of one biquad step: the accumulator shifted right by
/// `15 - post_shift` bits and saturated to Q15.
pub open spec fn biquad_out(
    s: BiquadCascadeDf1StateQ15,
    c: BiquadCoefficients,
    post_shift: nat,
    x: int,
) -> int {
    clamp16(biquad_acc(s, c, x) / (pow2((15 - post_shift) as nat) as int))
}

/// The history after one biquad step on input `x`.
pub open spec fn biquad_next(
    s: BiquadCascadeDf1StateQ15,
    c: BiquadCoefficients,
    post_shift: nat,
    x: i16,
) -> BiquadCascadeDf1StateQ15 {
    BiquadCascadeDf1StateQ15 {
        x1: x,
        x2: s.x1,
        y1: biquad_out(s, c, post_shift, x as int) as i16,
        y2: s.y1,
    }
}

/// The history after running the section over all of `input`.
pub open spec fn biquad_state_after(
    s: BiquadCascadeDf1StateQ15,
    c: BiquadCoefficients,
    post_shift: nat,
    input: Seq<Q15>,
) -> BiquadCascadeDf1StateQ15
    decreases input.len(),
{
    if input.len() == 0 {
        s
    } else {
        biquad_next(
            biquad_state_after(s, c, post_shift, input.drop_last()),
            c,
            post_shift,
            input.last().bits,
        )
    }
}

/// Element-wise fixed-point vector operations over equal-length buffers.
pub trait CmsisOperations {
    /// Replaces each value by its saturating absolute value.
    fn abs_in_place_q15(values: &mut [Q15])
        ensures
            final(values)@.len() == old(values)@.len(),
            forall|i: int|
                0 <= i < old(values)@.len() ==> final(values)@[i].bits == abs_spec(
                    old(values)@[i].bits as int,
                ),
    ;

    /// Writes the saturating absolute value of each `src` element into `dst`.
    fn abs_q15(src: &[Q15], dst: &mut [Q15])
        requires
            src@.len() == old(dst)@.len(),
        ensures
            final(dst)@.len() == src@.len(),
            forall|i: int|
                0 <= i < src@.len() ==> final(dst)@[i].bits == abs_spec(src@[i].bits as int),
    ;

    /// Writes the saturating sum of each pair of elements into `dst`.
    fn add_q15(src1: &[Q15], src2: &[Q15], dst: &mut [Q15])
        requires
            src1@.len() == src2@.len(),
            src1@.len() == old(dst)@.len(),
        ensures
            final(dst)@.len() == src1@.len(),
            forall|i: int|
                0 <= i < src1@.len() ==> final(dst)@[i].bits == clamp16(
                    src1@[i].bits + src2@[i].bits,
                ),
    ;

    /// Writes the product of each pair of elements into `dst`; the pair
    /// -1.0 × -1.0, which has no Q15 product, is not allowed.
    fn multiply_q15(src1: &[Q15], src2: &[Q15], dst: &mut [Q15])
        requires
            src1@.len() == src2@.len(),
            src1@.len() == old(dst)@.len(),
            forall|i: int|
                0 <= i < src1@.len() ==> !(src1@[i].bits == i16::MIN && src2@[i].bits
                    == i16::MIN),
        ensures
            final(dst)@.len() == src1@.len(),
            forall|i: int|
                0 <= i < src1@.len() ==> final(dst)@[i].bits == q15_mul_spec(
                    src1@[i].bits as int,
                    src2@[i].bits as int,
                ),
    ;

    /// Replaces each value by its saturating negation.
    fn negate_in_place_q15(values: &mut [Q15])
        ensures
            final(values)@.len() == old(values)@.len(),
            forall|i: int|
                0 <= i < old(values)@.len() ==> final(values)@[i].bits == clamp16(
                    -old(values)@[i].bits,
                ),
    ;

    /// Writes the saturating negation of each `src` element into `dst`.
    fn negate_q15(src: &[Q15], dst: &mut [Q15])
        requires
            src@.len() == old(dst)@.len(),
        ensures
            final(dst)@.len() == src@.len(),
            forall|i: int|
                0 <= i < src@.len() ==> final(dst)@[i].bits == clamp16(-src@[i].bits),
    ;

    /// Writes each `src` element shifted by `shift_bits` into `dst`: left
    /// (saturating) when positive, right when negative.
    fn shift_q15(src: &[Q15], shift_bits: i8, dst: &mut [Q15])
        requires
            src@.len() == old(dst)@.len(),
            shift_bits > -16,
        ensures
            final(dst)@.len() == src@.len(),
            forall|i: int|
                0 <= i < src@.len() ==> final(dst)@[i].bits == shift_spec(
                    src@[i].bits as int,
                    shift_bits as int,
                ),
    ;

    /// Shifts each value by `shift_bits`: left (saturating) when positive,
    /// right when negative.
    fn shift_in_place_q15(values: &mut [Q15], shift_bits: i8)
        requires
            shift_bits > -16,
        ensures
            final(values)@.len() == old(values)@.len(),
            forall|i: int|
                0 <= i < old(values)@.len() ==> final(values)@[i].bits == shift_spec(
                    old(values)@[i].bits as int,
                    shift_bits as int,
                ),
    ;

    /// Runs one direct-form-I biquad section over `input`, writing `output`
    /// and carrying the section's history in `state`.
    fn biquad_df1_q15(
        state: &mut BiquadCascadeDf1StateQ15,
        coefficients: BiquadCoefficients,
        post_shift: u32,
        input: &[Q15],
        output: &mut [Q15],
    )
        requires
            post_shift <= 15,
            input@.len() == old(output)@.len(),
        ensures
            final(output)@.len() == input@.len(),
            *final(state) == biquad_state_after(
                *old(state),
                coefficients,
                post_shift as nat,
                input@,
            ),
            forall|i: int|
                0 <= i < input@.len() ==> final(output)@[i].bits == biquad_out(
                    biquad_state_after(
                        *old(state),
                        coefficients,
                        post_shift as nat,
                        input@.take(i),
                    ),
                    coefficients,
                    post_shift as nat,
                    input@[i].bits as int,
                ),
    ;
}

/// The portable implementation of the kernel, built on the `fixed` crate.
pub struct CmsisRustOperations;

/// Saturating left shift by `shift` bits, done by repeated saturating doubling.
fn saturating_shl(a: i16, shift: u32) -> (r: i16)
    requires
        shift < 128,
    ensures
        r == clamp16(a * pow2(shift as nat)),
{
    let mut v: i16 = a;
    let mut j: u32 = 0;
    proof {
        lemma2_to64();
    }
    while j < shift
        invariant
            j <= shift,
            v == clamp16(a * pow2(j as nat)),
        decreases shift - j,
    {
        proof {
            lemma_pow2_unfold((j + 1) as nat);
            let p = pow2(j as nat) as int;
            assert(a * (2 * p) == 2 * (a * p)) by (nonlinear_arith);
        }
        v = q15_saturating_add(v, v);
        j = j + 1;
    }
    v
}

/// The shift of one value, as `shift_spec` states it.
fn shift_one(a: i16, shift_bits: i8) -> (r: i16)
    requires
        shift_bits > -16,
    ensures
        r == shift_spec(a as int, shift_bits as int),
{
    if shift_bits >= 0 {
        saturating_shl(a, shift_bits as u32)
    } else {
        let k: i8 = -shift_bits;
        q15_shr(a, k as u32)
    }
}

/// `2^k` for a small `k`.
fn pow2_i64(k: u32) -> (r: i64)
    requires
        k <= 15,
    ensures
        r == pow2(k as nat),
        1 <= r <= 0x8000,
{
    let mut d: i64 = 1;
    let mut j: u32 = 0;
    proof {
        lemma2_to64();
    }
    while j < k
        invariant
            j <= k,
            k <= 15,
            d == pow2(j as nat),
            d >= 1,
            pow2(14) == 0x4000,
            pow2(15) == 0x8000,
        decreases k - j,
    {
        proof {
            lemma_pow2_unfold((j + 1) as nat);
            if j < 14 {
                vstd::arithmetic::power2::lemma_pow2_strictly_increases(j as nat, 14);
            }
            assert(d <= 0x4000);
        }
        d = d * 2;
        j = j + 1;
    }
    proof {
        if k < 15 {
            vstd::arithmetic::power2::lemma_pow2_strictly_increases(k as nat, 15);
        }
    }
    d
}

/// The exact product of two 16-bit values.
fn wide_mul(a: i16, b: i16) -> (r: i64)
    ensures
        r == a * b,
        -0x4000_0000 <= r <= 0x4000_0000,
{
    proof {
        assert(-0x4000_0000 <= a * b <= 0x4000_0000) by (nonlinear_arith)
            requires
                -0x8000 <= a <= 0x7fff,
                -0x8000 <= b <= 0x7fff,
        ;
    }
    a as i64 * b as i64
}

/// One biquad step: the output for input `x`.
fn biquad_output(s: BiquadCascadeDf1StateQ15, c: BiquadCoefficients, post_shift: u32, x: i16) -> (r: i16)
    requires
        post_shift <= 15,
    ensures
        r == biquad_out(s, c, post_shift as nat, x as int),
{
    let acc: i64 = wide_mul(c.b0, x) + wide_mul(c.b1, s.x1) + wide_mul(c.b2, s.x2) + wide_mul(
        c.a1,
        s.y1,
    ) + wide_mul(c.a2, s.y2);
    assert(acc == biquad_acc(s, c, x as int));
    let d: i64 = pow2_i64(15 - post_shift);
    let m: i64 = 0x4_0000_0000;
    let big: i64 = d * m;
    let shifted: u64 = (acc + big) as u64;
    let q: i64 = (shifted / (d as u64)) as i64 - m;
    proof {
        assert(shifted / (d as u64) <= shifted);
        let q0 = acc as int / d as int;
        let r0 = acc as int % d as int;
        vstd::arithmetic::div_mod::lemma_fundamental_div_mod(acc as int, d as int);
        assert((acc + big) as int == (q0 + m) * d + r0) by (nonlinear_arith)
            requires
                acc as int == d * q0 + r0,
                big == d * m,
        ;
        lemma_fundamental_div_mod_converse((acc + big) as int, d as int, q0 + m, r0);
    }
    if q > 32767 {
        32767
    } else if q < -32768 {
        -32768
    } else {
        q as i16
    }
}

impl CmsisOperations for CmsisRustOperations {
    fn abs_in_place_q15(values: &mut [Q15]) {
        let n = values.len();
        let mut i: usize = 0;
        while i < n
            invariant
                n == old(values)@.len(),
                values@.len() == n,
                i <= n,
                forall|j: int| 0 <= j < i ==> values@[j].bits == abs_spec(old(values)@[j].bits as int),
                forall|j: int| i <= j < n ==> values@[j] == old(values)@[j],
            decreases n - i,
        {
            let v = q15_saturating_abs(values[i].bits);
            values[i] = Q15 { bits: v };
            i = i + 1;
        }
    }

    fn abs_q15(src: &[Q15], dst: &mut [Q15]) {
        let n = src.len();
        let mut i: usize = 0;
        while i < n
            invariant
                n == src@.len(),
                dst@.len() == n,
                i <= n,
                forall|j: int| 0 <= j < i ==> dst@[j].bits == abs_spec(src@[j].bits as int),
            decreases n - i,
        {
            let v = q15_saturating_abs(src[i].bits);
            dst[i] = Q15 { bits: v };
            i = i + 1;
        }
    }

    fn add_q15(src1: &[Q15], src2: &[Q15], dst: &mut [Q15]) {
        let n = src1.len();
        let mut i: usize = 0;
        while i < n
            invariant
                n == src1@.len(),
                n == src2@.len(),
                dst@.len() == n,
                i <= n,
                forall|j: int|
                    0 <= j < i ==> dst@[j].bits == clamp16(src1@[j].bits + src2@[j].bits),
            decreases n - i,
        {
            let v = q15_saturating_add(src1[i].bits, src2[i].bits);
            dst[i] = Q15 { bits: v };
            i = i + 1;
        }
    }

    fn multiply_q15(src1: &[Q15], src2: &[Q15], dst: &mut [Q15]) {
        let n = src1.len();
        let mut i: usize = 0;
        while i < n
            invariant
                n == src1@.len(),
                n == src2@.len(),
                dst@.len() == n,
                i <= n,
                forall|j: int|
                    0 <= j < n ==> !(src1@[j].bits == i16::MIN && src2@[j].bits == i16::MIN),
                forall|j: int|
                    0 <= j < i ==> dst@[j].bits == q15_mul_spec(
                        src1@[j].bits as int,
                        src2@[j].bits as int,
                    ),
            decreases n - i,
        {
            let v = q15_mul(src1[i].bits, src2[i].bits);
            dst[i] = Q15 { bits: v };
            i = i + 1;
        }
    }

    fn negate_in_place_q15(values: &mut [Q15]) {
        let n = values.len();
        let mut i: usize = 0;
        while i < n
            invariant
                n == old(values)@.len(),
                values@.len() == n,
                i <= n,
                forall|j: int| 0 <= j < i ==> values@[j].bits == clamp16(-old(values)@[j].bits),
                forall|j: int| i <= j < n ==> values@[j] == old(values)@[j],
            decreases n - i,
        {
            let v = q15_saturating_neg(values[i].bits);
            values[i] = Q15 { bits: v };
            i = i + 1;
        }
    }

    fn negate_q15(src: &[Q15], dst: &mut [Q15]) {
        let n = src.len();
        let mut i: usize = 0;
        while i < n
            invariant
                n == src@.len(),
                dst@.len() == n,
                i <= n,
                forall|j: int| 0 <= j < i ==> dst@[j].bits == clamp16(-src@[j].bits),
            decreases n - i,
        {
            let v = q15_saturating_neg(src[i].bits);
            dst[i] = Q15 { bits: v };
            i = i + 1;
        }
    }

    fn shift_q15(src: &[Q15], shift_bits: i8, dst: &mut [Q15]) {
        let n = src.len();
        let mut i: usize = 0;
        while i < n
            invariant
                n == src@.len(),
                dst@.len() == n,
                i <= n,
                shift_bits > -16,
                forall|j: int|
                    0 <= j < i ==> dst@[j].bits == shift_spec(src@[j].bits as int, shift_bits as int),
            decreases n - i,
        {
            let v = shift_one(src[i].bits, shift_bits);
            dst[i] = Q15 { bits: v };
            i = i + 1;
        }
    }

    fn shift_in_place_q15(values: &mut [Q15], shift_bits: i8) {
        let n = values.len();
        let mut i: usize = 0;
        while i < n
            invariant
                n == old(values)@.len(),
                values@.len() == n,
                i <= n,
                shift_bits > -16,
                forall|j: int|
                    0 <= j < i ==> values@[j].bits == shift_spec(
                        old(values)@[j].bits as int,
                        shift_bits as int,
                    ),
                forall|j: int| i <= j < n ==> values@[j] == old(values)@[j],
            decreases n - i,
        {
            let v = shift_one(values[i].bits, shift_bits);
            values[i] = Q15 { bits: v };
            i = i + 1;
        }
    }

    fn biquad_df1_q15(
        state: &mut BiquadCascadeDf1StateQ15,
        coefficients: BiquadCoefficients,
        post_shift: u32,
        input: &[Q15],
        output: &mut [Q15],
    ) {
        let n = input.len();
        let mut i: usize = 0;
        while i < n
            invariant
                n == input@.len(),
                output@.len() == n,
                i <= n,
                post_shift <= 15,
                *state == biquad_state_after(
                    *old(state),
                    coefficients,
                    post_shift as nat,
                    input@.take(i as int),
                ),
                forall|j: int|
                    0 <= j < i ==> output@[j].bits == biquad_out(
                        biquad_state_after(
                            *old(state),
                            coefficients,
                            post_shift as nat,
                            input@.take(j),
                        ),
                        coefficients,
                        post_shift as nat,
                        input@[j].bits as int,
                    ),
            decreases n - i,
        {
            let x = input[i].bits;
            let y = biquad_output(*state, coefficients, post_shift, x);
            output[i] = Q15 { bits: y };
            *state = BiquadCascadeDf1StateQ15 { x1: x, x2: state.x1, y1: y, y2: state.y1 };
            proof {
                assert(input@.take(i + 1).drop_last() == input@.take(i as int));
            }
            i = i + 1;
        }
        proof {
            assert(input@.take(n as int) == input@);
        }
    }
}

} // verus!
