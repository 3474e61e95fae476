use fixed::types::I1F15;
use synth_engine::{CmsisOperations, CmsisRustOperations as Ops, Q15};

fn q(v: f64) -> Q15 {
    Q15::from_bits(I1F15::from_num(v).to_bits())
}

fn zeros<const N: usize>() -> [Q15; N] {
    [Q15::from_bits(0); N]
}

#[test]
fn kernel_multiply_q15() {
    let src1 = [q(0.5), q(0.5), q(0.25)];
    let src2 = [q(0.5), q(0.25), q(0.5)];
    let mut dst = zeros::<3>();
    Ops::multiply_q15(&src1, &src2, &mut dst);
    assert_eq!(dst, [q(0.25), q(0.125), q(0.125)]);
}

#[test]
fn kernel_multiply_rounds_towards_negative_infinity() {
    let src1 = [Q15::from_bits(-1), Q15::from_bits(3)];
    let src2 = [Q15::from_bits(1), Q15::from_bits(0x4000)];
    let mut dst = zeros::<2>();
    Ops::multiply_q15(&src1, &src2, &mut dst);
    assert_eq!(dst, [Q15::from_bits(-1), Q15::from_bits(1)]);
}

#[test]
fn kernel_add_q15_saturates() {
    let src1 = [q(0.9), q(0.25), q(-0.9)];
    let src2 = [q(0.9), q(0.5), q(-0.9)];
    let mut dst = zeros::<3>();
    Ops::add_q15(&src1, &src2, &mut dst);
    assert_eq!(dst[0], Q15::from_bits(i16::MAX));
    assert_eq!(dst[1], q(0.75));
    assert_eq!(dst[2], Q15::from_bits(i16::MIN));
}

#[test]
fn kernel_abs_q15() {
    let src = [q(-0.5), q(0.25), q(-0.75), Q15::from_bits(i16::MIN)];
    let mut dst = zeros::<4>();
    Ops::abs_q15(&src, &mut dst);
    assert_eq!(dst, [q(0.5), q(0.25), q(0.75), Q15::from_bits(i16::MAX)]);
}

#[test]
fn kernel_abs_in_place_q15() {
    let mut values = [q(-0.5), q(0.25), q(-0.75)];
    Ops::abs_in_place_q15(&mut values);
    assert_eq!(values, [q(0.5), q(0.25), q(0.75)]);
}

#[test]
fn kernel_negate_q15() {
    let src = [q(0.5), q(-0.25), Q15::from_bits(i16::MIN)];
    let mut dst = zeros::<3>();
    Ops::negate_q15(&src, &mut dst);
    assert_eq!(dst, [q(-0.5), q(0.25), Q15::from_bits(i16::MAX)]);
}

#[test]
fn kernel_negate_in_place_q15() {
    let mut values = [q(0.5), q(-0.25)];
    Ops::negate_in_place_q15(&mut values);
    assert_eq!(values, [q(-0.5), q(0.25)]);
}

#[test]
fn kernel_shift_q15_left_and_right() {
    let src = [q(0.25), q(0.125), q(-0.5)];
    let mut dst = zeros::<3>();
    Ops::shift_q15(&src, 1, &mut dst);
    assert_eq!(dst, [q(0.5), q(0.25), q(-1.0)]);
    Ops::shift_q15(&src, -1, &mut dst);
    assert_eq!(dst, [q(0.125), q(0.0625), q(-0.25)]);
    Ops::shift_q15(&src, 0, &mut dst);
    assert_eq!(dst, src);
}

#[test]
fn kernel_shift_right_rounds_down() {
    let mut values = [Q15::from_bits(-3), Q15::from_bits(3)];
    Ops::shift_in_place_q15(&mut values, -1);
    assert_eq!(values, [Q15::from_bits(-2), Q15::from_bits(1)]);
}

#[test]
fn kernel_shift_left_saturates() {
    let mut values = [q(0.75), q(-0.75), q(0.0625)];
    Ops::shift_in_place_q15(&mut values, 2);
    assert_eq!(values, [Q15::from_bits(i16::MAX), Q15::from_bits(i16::MIN), q(0.25)]);
}
