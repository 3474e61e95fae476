//! A first-order exponential charge/discharge generator in Q31.
use crate::fixed_point::{clamp32, q31_mul_spec, q31_saturating_mul_add};
use vstd::prelude::*;

verus! {

/// Base of the fixed fast-decay pair used by a quick discharge: the
/// decay/release curve formula of the tables module for 0.5 ms.
pub const QUICK_FALL_BASE: i32 = -68443;

/// Coefficient of the fixed fast-decay pair used by a quick discharge.
pub const QUICK_FALL_COEFFICIENT: i32 = 1463057482;

/// Where a capacitor is heading.
#[derive(Clone, Copy, Debug, PartialEq, Eq, Structural)]
pub enum CapacitorStatus {
    ReachedTarget,
    Charging,
    Discharging,
    QuickDischarging,
}

/// One step of an exponential curve, in Q31: `value' = value × coefficient + base`.
#[derive(Clone, Copy, Debug, PartialEq, Eq, Structural)]
pub struct BaseAndCoefficient {
    pub base: i32,
    pub coefficient: i32,
}

/// The fast-decay pair used by a quick discharge.
pub open spec fn quick_fall_pair() -> BaseAndCoefficient {
    BaseAndCoefficient { base: QUICK_FALL_BASE, coefficient: QUICK_FALL_COEFFICIENT }
}

/// A value approaching a target along an exponential curve.
#[derive(Clone, Copy, Debug, PartialEq, Eq, Structural)]
pub struct Capacitor {
    pub current: i32,
    pub target: i32,
    pub rise_coeff: BaseAndCoefficient,
    pub fall_coeff: BaseAndCoefficient,
    pub status: CapacitorStatus,
}

/// One saturating step of the curve `coeff` from `value`.
pub open spec fn iterate_spec(value: int, coeff: BaseAndCoefficient) -> int {
    clamp32(q31_mul_spec(value, coeff.coefficient as int) + coeff.base)
}

/// The capacitor after `set_target(target)`.
pub open spec fn with_target(c: Capacitor, target: i32) -> Capacitor {
    Capacitor {
        target,
        status: if c.current < target {
            CapacitorStatus::Charging
        } else if c.current > target {
            CapacitorStatus::Discharging
        } else {
            CapacitorStatus::ReachedTarget
        },
        ..c
    }
}

/// The capacitor after `quick_discharge()`: heading for zero on the fast
/// curve, unless it already rests at zero with target zero, which it keeps.
pub open spec fn quick_discharged(c: Capacitor) -> Capacitor {
    if c.current == 0 && c.target == 0 && c.status == CapacitorStatus::ReachedTarget {
        c
    } else {
        Capacitor { target: 0, status: CapacitorStatus::QuickDischarging, ..c }
    }
}

/// The capacitor after one `step()`: the value moves along the curve that the
/// status selects and is clamped to the target, never past it.
pub open spec fn step_spec(c: Capacitor) -> Capacitor {
    match c.status {
        CapacitorStatus::ReachedTarget => c,
        CapacitorStatus::Charging => {
            let next = iterate_spec(c.current as int, c.rise_coeff);
            if next >= c.target {
                Capacitor { current: c.target, status: CapacitorStatus::ReachedTarget, ..c }
            } else {
                Capacitor { current: next as i32, ..c }
            }
        },
        CapacitorStatus::Discharging => {
            let next = iterate_spec(c.current as int, c.fall_coeff);
            if next <= c.target {
                Capacitor { current: c.target, status: CapacitorStatus::ReachedTarget, ..c }
            } else {
                Capacitor { current: next as i32, ..c }
            }
        },
        CapacitorStatus::QuickDischarging => {
            let next = iterate_spec(c.current as int, quick_fall_pair());
            if next <= c.target {
                Capacitor { current: c.target, status: CapacitorStatus::ReachedTarget, ..c }
            } else {
                Capacitor { current: next as i32, ..c }
            }
        },
    }
}

impl Capacitor {
    /// A discharged capacitor at its zero target with the given curves.
    pub fn new(rise_coeff: BaseAndCoefficient, fall_coeff: BaseAndCoefficient) -> (r: Capacitor)
        ensures
            r == (Capacitor {
                current: 0,
                target: 0,
                rise_coeff,
                fall_coeff,
                status: CapacitorStatus::ReachedTarget,
            }),
    {
        Capacitor {
            current: 0,
            target: 0,
            rise_coeff,
            fall_coeff,
            status: CapacitorStatus::ReachedTarget,
        }
    }

    /// Sets the target and the direction towards it.
    pub fn set_target(&mut self, target: i32)
        ensures
            *final(self) == with_target(*old(self), target),
    {
        self.target = target;
        if self.current < target {
            self.status = CapacitorStatus::Charging;
        } else if self.current > target {
            self.status = CapacitorStatus::Discharging;
        } else {
            self.status = CapacitorStatus::ReachedTarget;
        }
    }

    /// Sets the current value, leaving target and status alone.
    pub fn set_level(&mut self, level: i32)
        ensures
            *final(self) == (Capacitor { current: level, ..*old(self) }),
    {
        self.current = level;
    }

    /// The current value.
    pub fn get_level(&self) -> (r: i32)
        ensures
            r == self.current,
    {
        self.current
    }

    /// The current status.
    pub fn get_status(&self) -> (r: CapacitorStatus)
        ensures
            r == self.status,
    {
        self.status
    }

    /// Replaces the rising curve.
    pub fn set_rise_coeff(&mut self, rise_coeff: BaseAndCoefficient)
        ensures
            *final(self) == (Capacitor { rise_coeff, ..*old(self) }),
    {
        self.rise_coeff = rise_coeff;
    }

    /// Replaces the falling curve.
    pub fn set_fall_coeff(&mut self, fall_coeff: BaseAndCoefficient)
        ensures
            *final(self) == (Capacitor { fall_coeff, ..*old(self) }),
    {
        self.fall_coeff = fall_coeff;
    }

    /// Heads for zero along the fixed fast-decay curve, whatever curves are
    /// configured; a capacitor already resting at zero is left unchanged.
    pub fn quick_discharge(&mut self)
        ensures
            *final(self) == quick_discharged(*old(self)),
    {
        if !(self.current == 0 && self.target == 0 && self.status
            == CapacitorStatus::ReachedTarget) {
            self.target = 0;
            self.status = CapacitorStatus::QuickDischarging;
        }
    }

    /// One step of the curve `coeff` from `value`.
    pub fn iterate(value: i32, coeff: BaseAndCoefficient) -> (r: i32)
        ensures
            r == iterate_spec(value as int, coeff),
    {
        q31_saturating_mul_add(value, coeff.coefficient, coeff.base)
    }

    /// Advances one step towards the target and returns the new status.
    pub fn step(&mut self) -> (r: CapacitorStatus)
        ensures
            *final(self) == step_spec(*old(self)),
            r == final(self).status,
    {
        match self.status {
            CapacitorStatus::ReachedTarget => self.status,
            CapacitorStatus::Charging => {
                let next = Self::iterate(self.current, self.rise_coeff);
                if next >= self.target {
                    self.current = self.target;
                    self.status = CapacitorStatus::ReachedTarget;
                } else {
                    self.current = next;
                }
                self.status
            },
            CapacitorStatus::Discharging => {
                let next = Self::iterate(self.current, self.fall_coeff);
                if next <= self.target {
                    self.current = self.target;
                    self.status = CapacitorStatus::ReachedTarget;
                } else {
                    self.current = next;
                }
                self.status
            },
            CapacitorStatus::QuickDischarging => {
                let quick = BaseAndCoefficient {
                    base: QUICK_FALL_BASE,
                    coefficient: QUICK_FALL_COEFFICIENT,
                };
                let next = Self::iterate(self.current, quick);
                if next <= self.target {
                    self.current = self.target;
                    self.status = CapacitorStatus::ReachedTarget;
                } else {
                    self.current = next;
                }
                self.status
            },
        }
    }
}

impl Default for Capacitor {
    fn default() -> (r: Capacitor)
        ensures
            r == (Capacitor {
                current: 0,
                target: 0,
                rise_coeff: BaseAndCoefficient { base: 0, coefficient: 0 },
                fall_coeff: BaseAndCoefficient { base: 0, coefficient: 0 },
                status: CapacitorStatus::ReachedTarget,
            }),
    {
        Capacitor::new(
            BaseAndCoefficient { base: 0, coefficient: 0 },
            BaseAndCoefficient { base: 0, coefficient: 0 },
        )
    }
}

} // verus!
