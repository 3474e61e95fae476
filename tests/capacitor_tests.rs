use fixed::types::I1F31;
use synth_engine::adsr::fall_base_and_coefficient;
use synth_engine::{BaseAndCoefficient, Capacitor, CapacitorStatus};

fn q31(v: f64) -> i32 {
    I1F31::from_num(v).to_bits()
}

const Q31_MAX: i32 = i32::MAX;

#[test]
fn test_capacitor_rises_to_target() {
    let rise_coeff = BaseAndCoefficient { base: q31(0.1), coefficient: 0x7f000000 };
    let fall_coeff = BaseAndCoefficient { base: 0, coefficient: 0x7f000000 };

    let mut cap = Capacitor::new(rise_coeff, fall_coeff);
    cap.set_target(q31(0.5));

    let mut status = cap.step();
    assert_eq!(status, CapacitorStatus::Charging);
    assert!(cap.get_level() > 0);
    assert!(cap.get_level() < q31(0.5));

    let mut iterations = 0;
    while status != CapacitorStatus::ReachedTarget && iterations < 100 {
        status = cap.step();
        iterations += 1;
    }

    assert_eq!(status, CapacitorStatus::ReachedTarget);
    assert_eq!(cap.get_level(), q31(0.5));
}

#[test]
fn test_capacitor_falls_to_target() {
    let rise_coeff = BaseAndCoefficient { base: 0, coefficient: 0x7f000000 };
    let fall_coeff = BaseAndCoefficient { base: q31(-0.1), coefficient: 0x7f000000 };

    let mut cap = Capacitor::new(rise_coeff, fall_coeff);
    cap.set_level(Q31_MAX);
    cap.set_target(q31(0.5));

    let mut status = cap.step();
    assert_eq!(status, CapacitorStatus::Discharging);
    assert!(cap.get_level() < Q31_MAX);
    assert!(cap.get_level() > q31(0.5));

    let mut iterations = 0;
    while status != CapacitorStatus::ReachedTarget && iterations < 100 {
        status = cap.step();
        iterations += 1;
    }

    assert_eq!(status, CapacitorStatus::ReachedTarget);
    assert_eq!(cap.get_level(), q31(0.5));
}

#[test]
fn test_capacitor_does_not_overshoot_rising() {
    let rise_coeff = BaseAndCoefficient { base: q31(0.1), coefficient: 0x7f000000 };
    let fall_coeff = BaseAndCoefficient { base: 0, coefficient: 0x7f000000 };

    let mut cap = Capacitor::new(rise_coeff, fall_coeff);
    cap.set_level(q31(0.45));
    cap.set_target(q31(0.5));

    let status = cap.step();
    assert_eq!(status, CapacitorStatus::ReachedTarget);
    assert_eq!(cap.get_level(), q31(0.5));
}

#[test]
fn test_capacitor_does_not_overshoot_falling() {
    let rise_coeff = BaseAndCoefficient { base: 0, coefficient: 0x7f000000 };
    let fall_coeff = BaseAndCoefficient { base: q31(-0.1), coefficient: 0x7f000000 };

    let mut cap = Capacitor::new(rise_coeff, fall_coeff);
    cap.set_level(q31(0.55));
    cap.set_target(q31(0.5));

    let status = cap.step();
    assert_eq!(status, CapacitorStatus::ReachedTarget);
    assert_eq!(cap.get_level(), q31(0.5));
}

#[test]
fn test_capacitor_already_at_target() {
    let rise_coeff = BaseAndCoefficient { base: q31(0.1), coefficient: 0x7f000000 };
    let fall_coeff = BaseAndCoefficient { base: q31(-0.1), coefficient: 0x7f000000 };

    let mut cap = Capacitor::new(rise_coeff, fall_coeff);
    cap.set_level(q31(0.5));
    cap.set_target(q31(0.5));

    let status = cap.step();
    assert_eq!(status, CapacitorStatus::ReachedTarget);
    assert_eq!(cap.get_level(), q31(0.5));
}

#[test]
fn test_capacitor_target_change_mid_flight() {
    let rise_coeff = BaseAndCoefficient { base: q31(0.1), coefficient: 0x7f000000 };
    let fall_coeff = BaseAndCoefficient { base: q31(-0.1), coefficient: 0x7f000000 };

    let mut cap = Capacitor::new(rise_coeff, fall_coeff);
    cap.set_target(Q31_MAX);

    cap.step();
    cap.step();
    cap.step();
    cap.step();
    let mid_level = cap.get_level();
    assert!(mid_level > 0);
    assert!(mid_level < Q31_MAX);

    cap.set_target(q31(0.05));

    let status = cap.step();
    assert_eq!(status, CapacitorStatus::Discharging);
    assert!(cap.get_level() < mid_level);
}

#[test]
fn test_capacitor_quick_discharge() {
    let rise_coeff = BaseAndCoefficient { base: q31(0.1), coefficient: 0x7f000000 };
    let slow_fall_coeff = fall_base_and_coefficient(1);

    let mut cap_quick = Capacitor::new(rise_coeff, slow_fall_coeff);
    cap_quick.set_level(Q31_MAX);
    cap_quick.quick_discharge();

    let status = cap_quick.step();
    assert_eq!(status, CapacitorStatus::QuickDischarging);
    assert!(cap_quick.get_level() < Q31_MAX);

    let mut quick_iterations = 1;
    let mut final_status = status;
    while final_status != CapacitorStatus::ReachedTarget && quick_iterations < 1000 {
        final_status = cap_quick.step();
        quick_iterations += 1;
    }
    assert_eq!(final_status, CapacitorStatus::ReachedTarget);
    assert_eq!(cap_quick.get_level(), 0);

    let mut cap_slow = Capacitor::new(rise_coeff, slow_fall_coeff);
    cap_slow.set_level(Q31_MAX);
    cap_slow.set_target(0);

    let mut slow_iterations = 0;
    let mut slow_status = cap_slow.step();
    while slow_status != CapacitorStatus::ReachedTarget && slow_iterations < 10000 {
        slow_status = cap_slow.step();
        slow_iterations += 1;
    }
    assert_eq!(slow_status, CapacitorStatus::ReachedTarget);
    assert_eq!(cap_slow.get_level(), 0);

    assert!(
        quick_iterations < slow_iterations,
        "Quick discharge took {} iterations, but slow discharge took {} iterations",
        quick_iterations,
        slow_iterations
    );
}
