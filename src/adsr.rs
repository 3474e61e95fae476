//! The per-voice attack/decay/sustain/release envelope.
use crate::capacitor::{
    iterate_spec, quick_discharged, step_spec, with_target, BaseAndCoefficient, Capacitor,
    CapacitorStatus,
};
use crate::fixed_point::{clamp32, q31_mul_spec, q31_saturating_mul, q31_to_q15, Q15};
use crate::tables::{FALL_BASES, FALL_COEFFICIENTS, RISE_BASES, RISE_COEFFICIENTS};
use vstd::arithmetic::div_mod::{lemma_div_is_ordered, lemma_div_multiples_vanish};
use vstd::prelude::*;

verus! {

/// The linear amplitude of a 0-255 setting, in Q31: `setting / 255`, rounded
/// to nearest, with 255 mapped to the largest Q31 value. The curve is linear
/// in the setting (half scale at 127, three quarters at 191, silence at 0);
/// it is computed, not looked up.
pub open spec fn amplitude_of(setting: u8) -> i32 {
    if setting == 255 {
        i32::MAX
    } else {
        ((setting * 0x8000_0000int + 127) / 255) as i32
    }
}

/// The attack curve of an attack setting.
pub open spec fn rise_pair(setting: u8) -> BaseAndCoefficient {
    BaseAndCoefficient {
        base: RISE_BASES@[setting as int],
        coefficient: RISE_COEFFICIENTS@[setting as int],
    }
}

/// The decay/release curve of a decay/release setting.
pub open spec fn fall_pair(setting: u8) -> BaseAndCoefficient {
    BaseAndCoefficient {
        base: FALL_BASES@[setting as int],
        coefficient: FALL_COEFFICIENTS@[setting as int],
    }
}

/// The linear amplitude of a 0-255 setting, in Q31.
pub fn linear_amplitude(setting: u8) -> (r: i32)
    ensures
        r == amplitude_of(setting),
        r >= 0,
{
    if setting == 255 {
        0x7fff_ffff
    } else {
        let num: u64 = setting as u64 * 0x8000_0000 + 127;
        proof {
            assert(num / 255 < 0x8000_0000) by (nonlinear_arith)
                requires
                    num == setting * 0x8000_0000int + 127,
                    setting <= 254,
            ;
        }
        (num / 255) as i32
    }
}

/// The attack curve of an attack setting.
pub fn rise_base_and_coefficient(setting: u8) -> (r: BaseAndCoefficient)
    ensures
        r == rise_pair(setting),
{
    BaseAndCoefficient {
        base: RISE_BASES[setting as usize],
        coefficient: RISE_COEFFICIENTS[setting as usize],
    }
}

/// The decay/release curve of a decay/release setting.
pub fn fall_base_and_coefficient(setting: u8) -> (r: BaseAndCoefficient)
    ensures
        r == fall_pair(setting),
{
    BaseAndCoefficient {
        base: FALL_BASES[setting as usize],
        coefficient: FALL_COEFFICIENTS[setting as usize],
    }
}

/// An attack curve that never lowers a level in `[0, 1)`: its base makes up
/// for what the coefficient takes away.
pub open spec fn rise_shaped(c: BaseAndCoefficient) -> bool {
    0 <= c.coefficient && c.base >= 0x8000_0000 - c.coefficient
}

/// A decay curve that never raises a non-negative level.
pub open spec fn fall_shaped(c: BaseAndCoefficient) -> bool {
    0 <= c.coefficient && c.base <= 0
}

/// Every attack curve of the table is rise-shaped.
pub proof fn lemma_rise_table_shaped(setting: u8)
    ensures
        rise_shaped(rise_pair(setting)),
{
    assert(forall|i: int|
        0 <= i < 256 ==> #[trigger] RISE_BASES@[i] >= 0x8000_0000 - RISE_COEFFICIENTS@[i]
            && RISE_COEFFICIENTS@[i] >= 0);
}

/// Every decay/release curve of the table, and the quick-discharge curve, is fall-shaped.
pub proof fn lemma_fall_table_shaped(setting: u8)
    ensures
        fall_shaped(fall_pair(setting)),
        fall_shaped(crate::capacitor::quick_fall_pair()),
{
    assert(forall|i: int|
        0 <= i < 256 ==> #[trigger] FALL_BASES@[i] <= 0 && FALL_COEFFICIENTS@[i] >= 0);
}

/// Bounds on the Q31 product of a level in `[0, 1)` and a coefficient in `[0, 1)`.
proof fn lemma_q31_mul_bounds(level: int, c: int)
    requires
        0 <= level < 0x8000_0000,
        0 <= c < 0x8000_0000,
    ensures
        level - (0x8000_0000 - c) <= q31_mul_spec(level, c) <= level,
        0 <= q31_mul_spec(level, c),
{
    let d = 0x8000_0000int;
    assert(level * c <= level * d) by (nonlinear_arith)
        requires
            0 <= level,
            c <= d,
    ;
    assert(0 <= level * c) by (nonlinear_arith)
        requires
            0 <= level,
            0 <= c,
    ;
    assert(d * (level - (d - c)) <= level * c) by (nonlinear_arith)
        requires
            0 <= level < d,
            0 <= c < d,
    ;
    lemma_div_is_ordered(level * c, level * d, d);
    lemma_div_is_ordered(d * (level - (d - c)), level * c, d);
    lemma_div_is_ordered(0, level * c, d);
    lemma_div_multiples_vanish(level, d);
    lemma_div_multiples_vanish(level - (d - c), d);
    assert(level * d == d * level) by (nonlinear_arith);
}

/// The stages of the envelope.
#[derive(Clone, Copy, Debug, PartialEq, Eq, Structural)]
pub enum ADSRStage {
    Idle,
    Attack,
    Decay,
    Sustain,
    Release,
    QuickRelease,
}

impl ADSRStage {
    /// Starts (or restarts) the attack.
    pub fn play(&mut self)
        ensures
            *final(self) == ADSRStage::Attack,
    {
        *self = ADSRStage::Attack;
    }

    /// Moves Attack, Decay and Sustain to Release; Idle, Release and
    /// QuickRelease are left as they are.
    pub fn stop_playing(&mut self)
        ensures
            *final(self) == stopped_stage(*old(self)),
    {
        match *self {
            ADSRStage::Attack | ADSRStage::Decay | ADSRStage::Sustain => {
                *self = ADSRStage::Release;
            },
            _ => {},
        }
    }

    /// Moves any active stage to QuickRelease; an idle envelope stays idle.
    pub fn quick_release(&mut self)
        ensures
            *final(self) == if *old(self) == ADSRStage::Idle {
                ADSRStage::Idle
            } else {
                ADSRStage::QuickRelease
            },
    {
        match *self {
            ADSRStage::Idle => {},
            _ => {
                *self = ADSRStage::QuickRelease;
            },
        }
    }
}

/// The settings of an envelope, in Q31: the sustain level (a fraction of the
/// velocity amplitude), the velocity amplitude, and the two curves.
#[derive(Clone, Copy, Debug, PartialEq, Eq, Structural)]
pub struct ADSRConfig {
    pub sustain_level: i32,
    pub velocity_amplitude: i32,
    pub rise_base_and_coefficient: BaseAndCoefficient,
    pub fall_base_and_coefficient: BaseAndCoefficient,
}

/// The level that Decay heads for: the sustain level times the velocity amplitude.
pub open spec fn decay_target(c: ADSRConfig) -> i32 {
    clamp32(q31_mul_spec(c.sustain_level as int, c.velocity_amplitude as int)) as i32
}

impl ADSRConfig {
    /// The settings for the given 0-255 configuration values and a 0-127 velocity.
    pub fn new(sustain_config: u8, attack_config: u8, decay_release_config: u8, velocity: u8) -> (r:
        ADSRConfig)
        requires
            velocity < 128,
        ensures
            r == (ADSRConfig {
                sustain_level: amplitude_of(sustain_config),
                velocity_amplitude: amplitude_of((velocity * 2) as u8),
                rise_base_and_coefficient: rise_pair(attack_config),
                fall_base_and_coefficient: fall_pair(decay_release_config),
            }),
    {
        ADSRConfig {
            sustain_level: linear_amplitude(sustain_config),
            velocity_amplitude: linear_amplitude(velocity * 2),
            rise_base_and_coefficient: rise_base_and_coefficient(attack_config),
            fall_base_and_coefficient: fall_base_and_coefficient(decay_release_config),
        }
    }

    /// Sets the velocity amplitude from a 0-127 velocity.
    pub fn set_velocity(&mut self, velocity: u8)
        requires
            velocity < 128,
        ensures
            *final(self) == (ADSRConfig {
                velocity_amplitude: amplitude_of((velocity * 2) as u8),
                ..*old(self)
            }),
    {
        self.velocity_amplitude = linear_amplitude(velocity * 2);
    }

    /// Sets the sustain level from a 0-255 setting.
    pub fn set_sustain(&mut self, sustain_config: u8)
        ensures
            *final(self) == (ADSRConfig { sustain_level: amplitude_of(sustain_config), ..*old(self) }),
    {
        self.sustain_level = linear_amplitude(sustain_config);
    }

    /// Sets the attack curve from a 0-255 setting.
    pub fn set_rise(&mut self, attack_config: u8)
        ensures
            *final(self) == (ADSRConfig {
                rise_base_and_coefficient: rise_pair(attack_config),
                ..*old(self)
            }),
    {
        self.rise_base_and_coefficient = rise_base_and_coefficient(attack_config);
    }

    /// Sets the decay/release curve from a 0-255 setting.
    pub fn set_fall(&mut self, decay_release_config: u8)
        ensures
            *final(self) == (ADSRConfig {
                fall_base_and_coefficient: fall_pair(decay_release_config),
                ..*old(self)
            }),
    {
        self.fall_base_and_coefficient = fall_base_and_coefficient(decay_release_config);
    }
}

/// An envelope: its stage, its settings and the capacitor that shapes it.
#[derive(Clone, Copy, Debug, PartialEq, Eq, Structural)]
pub struct ADSR {
    pub stage: ADSRStage,
    pub config: ADSRConfig,
    pub capacitor: Capacitor,
}

/// An envelope whose capacitor curves are shaped as the tables' are, whose
/// level is non-negative and whose settings are non-negative.
pub open spec fn adsr_wf(a: ADSR) -> bool {
    &&& rise_shaped(a.capacitor.rise_coeff)
    &&& fall_shaped(a.capacitor.fall_coeff)
    &&& a.capacitor.current >= 0
    &&& a.config.velocity_amplitude >= 0
    &&& a.config.sustain_level >= 0
}

/// The envelope after one step.
pub open spec fn adsr_step(a: ADSR) -> ADSR {
    match a.stage {
        ADSRStage::Idle => a,
        ADSRStage::Attack => {
            let cap = step_spec(with_target(a.capacitor, a.config.velocity_amplitude));
            ADSR {
                stage: if cap.status == CapacitorStatus::ReachedTarget {
                    ADSRStage::Decay
                } else {
                    ADSRStage::Attack
                },
                capacitor: cap,
                ..a
            }
        },
        ADSRStage::Decay => {
            let cap = step_spec(with_target(a.capacitor, decay_target(a.config)));
            ADSR {
                stage: if cap.status == CapacitorStatus::ReachedTarget {
                    ADSRStage::Sustain
                } else {
                    ADSRStage::Decay
                },
                capacitor: cap,
                ..a
            }
        },
        ADSRStage::Sustain => a,
        ADSRStage::Release => {
            let cap = step_spec(with_target(a.capacitor, 0));
            ADSR {
                stage: if cap.status == CapacitorStatus::ReachedTarget {
                    ADSRStage::Idle
                } else {
                    ADSRStage::Release
                },
                capacitor: cap,
                ..a
            }
        },
        ADSRStage::QuickRelease => {
            let cap = step_spec(quick_discharged(a.capacitor));
            ADSR {
                stage: if cap.status == CapacitorStatus::ReachedTarget {
                    ADSRStage::Idle
                } else {
                    ADSRStage::QuickRelease
                },
                capacitor: cap,
                ..a
            }
        },
    }
}

/// The Q31 level that one step from `a` emits: zero when idle, else the
/// capacitor's value after the step.
pub open spec fn adsr_level(a: ADSR) -> i32 {
    if a.stage == ADSRStage::Idle {
        0
    } else {
        adsr_step(a).capacitor.current
    }
}

/// The envelope after `n` steps.
pub open spec fn adsr_after(a: ADSR, n: nat) -> ADSR
    decreases n,
{
    if n == 0 {
        a
    } else {
        adsr_step(adsr_after(a, (n - 1) as nat))
    }
}

/// The Q15 sample of the envelope emitted at step `i` from `a`.
pub open spec fn adsr_sample(a: ADSR, i: nat) -> int {
    adsr_level(adsr_after(a, i)) as int / 0x1_0000
}

/// An idle envelope with the settings of the given configuration values and velocity.
pub open spec fn adsr_initial(
    sustain_config: u8,
    attack_config: u8,
    decay_release_config: u8,
    velocity: u8,
) -> ADSR {
    ADSR {
        stage: ADSRStage::Idle,
        config: ADSRConfig {
            sustain_level: amplitude_of(sustain_config),
            velocity_amplitude: amplitude_of((velocity * 2) as u8),
            rise_base_and_coefficient: rise_pair(attack_config),
            fall_base_and_coefficient: fall_pair(decay_release_config),
        },
        capacitor: Capacitor {
            current: 0,
            target: 0,
            rise_coeff: rise_pair(attack_config),
            fall_coeff: fall_pair(decay_release_config),
            status: CapacitorStatus::ReachedTarget,
        },
    }
}

/// The envelope after `play(velocity)`: level reset to zero, new velocity
/// amplitude, Attack.
pub open spec fn adsr_played(a: ADSR, velocity: u8) -> ADSR {
    ADSR {
        stage: ADSRStage::Attack,
        capacitor: Capacitor { current: 0, ..a.capacitor },
        config: ADSRConfig { velocity_amplitude: amplitude_of((velocity * 2) as u8), ..a.config },
    }
}

/// The envelope after `retrigger(velocity)`: level kept, new velocity
/// amplitude, Attack.
pub open spec fn adsr_retriggered(a: ADSR, velocity: u8) -> ADSR {
    ADSR {
        stage: ADSRStage::Attack,
        config: ADSRConfig { velocity_amplitude: amplitude_of((velocity * 2) as u8), ..a.config },
        ..a
    }
}

/// The stage after `stop_playing()`: Attack, Decay and Sustain move to
/// Release; Idle, Release and QuickRelease stay as they are.
pub open spec fn stopped_stage(stage: ADSRStage) -> ADSRStage {
    match stage {
        ADSRStage::Attack | ADSRStage::Decay | ADSRStage::Sustain => ADSRStage::Release,
        _ => stage,
    }
}

/// The envelope after `stop_playing()`.
pub open spec fn adsr_stopped(a: ADSR) -> ADSR {
    ADSR { stage: stopped_stage(a.stage), ..a }
}

/// The envelope after `quick_release()`.
pub open spec fn adsr_quick_released(a: ADSR) -> ADSR {
    ADSR {
        stage: if a.stage == ADSRStage::Idle {
            ADSRStage::Idle
        } else {
            ADSRStage::QuickRelease
        },
        ..a
    }
}

/// Envelope direction: one step during Attack, from a level at most the attack
/// target, never lowers the level (nor the Q15 sample); one step during Decay,
/// from a level at least the decay target, or during Release, never raises it.
/// A step keeps the envelope well-formed.
pub proof fn lemma_envelope_direction(a: ADSR)
    requires
        adsr_wf(a),
    ensures
        adsr_wf(adsr_step(a)),
        a.stage == ADSRStage::Attack && a.capacitor.current <= a.config.velocity_amplitude
            ==> adsr_level(a) >= a.capacitor.current && adsr_level(a) / 0x1_0000
            >= a.capacitor.current / 0x1_0000,
        a.stage == ADSRStage::Decay && a.capacitor.current >= decay_target(a.config)
            ==> adsr_level(a) <= a.capacitor.current && adsr_level(a) / 0x1_0000
            <= a.capacitor.current / 0x1_0000,
        a.stage == ADSRStage::Release ==> adsr_level(a) <= a.capacitor.current && adsr_level(a)
            / 0x1_0000 <= a.capacitor.current / 0x1_0000,
{
    let cur = a.capacitor.current as int;
    lemma_q31_mul_bounds(cur, a.capacitor.rise_coeff.coefficient as int);
    lemma_q31_mul_bounds(cur, a.capacitor.fall_coeff.coefficient as int);
    lemma_q31_mul_bounds(cur, crate::capacitor::QUICK_FALL_COEFFICIENT as int);
    lemma_q31_mul_bounds(
        a.config.sustain_level as int,
        a.config.velocity_amplitude as int,
    );
    let l = adsr_level(a) as int;
    if l >= cur {
        lemma_div_is_ordered(cur, l, 0x1_0000);
    }
    if l <= cur {
        lemma_div_is_ordered(l, cur, 0x1_0000);
    }
}

/// Every amplitude is non-negative.
pub proof fn lemma_amplitude_nonneg(setting: u8)
    ensures
        amplitude_of(setting) >= 0,
{
    if setting != 255 {
        assert((setting * 0x8000_0000int + 127) / 255 < 0x8000_0000) by (nonlinear_arith)
            requires
                setting <= 254,
        ;
        assert((setting * 0x8000_0000int + 127) / 255 >= 0) by (nonlinear_arith)
            requires
                0 <= setting,
        ;
    }
}

/// Any number of steps keeps a well-formed envelope well-formed and emits
/// non-negative levels.
pub proof fn lemma_adsr_after_wf(a: ADSR, n: nat)
    requires
        adsr_wf(a),
    ensures
        adsr_wf(adsr_after(a, n)),
        adsr_level(adsr_after(a, n)) >= 0,
        adsr_sample(a, n) >= 0,
    decreases n,
{
    if n > 0 {
        lemma_adsr_after_wf(a, (n - 1) as nat);
        lemma_envelope_direction(adsr_after(a, (n - 1) as nat));
    }
    lemma_envelope_direction(adsr_after(a, n));
    assert(adsr_level(adsr_after(a, n)) >= 0);
    vstd::arithmetic::div_mod::lemma_div_is_ordered(0, adsr_level(adsr_after(a, n)) as int, 0x1_0000);
}

/// From Attack, Decay or Sustain, any number of steps stays in one of them:
/// only a release leads to Idle.
pub proof fn lemma_adsr_after_held(a: ADSR, n: nat)
    requires
        a.stage == ADSRStage::Attack || a.stage == ADSRStage::Decay || a.stage
            == ADSRStage::Sustain,
    ensures
        adsr_after(a, n).stage == ADSRStage::Attack || adsr_after(a, n).stage == ADSRStage::Decay
            || adsr_after(a, n).stage == ADSRStage::Sustain,
    decreases n,
{
    if n > 0 {
        lemma_adsr_after_held(a, (n - 1) as nat);
    }
}

/// Whether the envelope heads the way its stage says: in Attack it is at or
/// below the attack target, in Decay at or above the decay target. `play`
/// leaves it so; a `retrigger` to a lower velocity or a raised sustain level
/// may not.
pub open spec fn adsr_on_course(a: ADSR) -> bool {
    &&& a.stage == ADSRStage::Attack ==> a.capacitor.current <= a.config.velocity_amplitude
    &&& a.stage == ADSRStage::Decay ==> a.capacitor.current >= decay_target(a.config)
}

proof fn lemma_decay_target_below_attack(c: ADSRConfig)
    requires
        c.sustain_level >= 0,
        c.velocity_amplitude >= 0,
    ensures
        0 <= decay_target(c) <= c.velocity_amplitude,
{
    lemma_q31_mul_bounds(c.sustain_level as int, c.velocity_amplitude as int);
    assert(q31_mul_spec(c.sustain_level as int, c.velocity_amplitude as int)
        == q31_mul_spec(c.velocity_amplitude as int, c.sustain_level as int)) by {
        assert(c.sustain_level as int * c.velocity_amplitude as int == c.velocity_amplitude as int
            * c.sustain_level as int) by (nonlinear_arith);
    }
    lemma_q31_mul_bounds(c.velocity_amplitude as int, c.sustain_level as int);
}

#[verifier::spinoff_prover]
proof fn lemma_step_on_course(a: ADSR)
    requires
        adsr_wf(a),
        adsr_on_course(a),
    ensures
        adsr_on_course(adsr_step(a)),
{
    lemma_decay_target_below_attack(a.config);
    let b = adsr_step(a);
    match a.stage {
        ADSRStage::Attack => {
            let c = with_target(a.capacitor, a.config.velocity_amplitude);
            assert(b.capacitor == step_spec(c));
            if b.stage == ADSRStage::Attack {
                assert(b.capacitor.current < a.config.velocity_amplitude);
            } else {
                assert(b.capacitor.current == a.config.velocity_amplitude);
            }
        },
        ADSRStage::Decay => {
            let c = with_target(a.capacitor, decay_target(a.config));
            assert(b.capacitor == step_spec(c));
        },
        _ => {},
    }
}

proof fn lemma_adsr_after_on_course(a: ADSR, n: nat)
    requires
        adsr_wf(a),
        adsr_on_course(a),
    ensures
        adsr_wf(adsr_after(a, n)),
        adsr_on_course(adsr_after(a, n)),
    decreases n,
{
    if n > 0 {
        lemma_adsr_after_on_course(a, (n - 1) as nat);
        lemma_envelope_direction(adsr_after(a, (n - 1) as nat));
        lemma_step_on_course(adsr_after(a, (n - 1) as nat));
    }
}

/// Envelope direction over a buffer: for a well-formed envelope on course,
/// the sample emitted at step `k` is at least the one before it when step `k`
/// starts in Attack, and at most the one before it when step `k` starts in
/// Decay or Release. The first sample relates to the starting level the same
/// way. Every sample is non-negative, and once the envelope is idle its
/// samples are zero.
pub proof fn lemma_envelope_samples(a: ADSR, k: nat)
    requires
        adsr_wf(a),
        adsr_on_course(a),
    ensures
        ({
            let b = adsr_after(a, k);
            let previous = if k == 0 {
                a.capacitor.current as int / 0x1_0000
            } else {
                adsr_sample(a, (k - 1) as nat)
            };
            &&& b.stage == ADSRStage::Attack ==> previous <= adsr_sample(a, k)
            &&& b.stage == ADSRStage::Decay || b.stage == ADSRStage::Release ==> adsr_sample(a, k)
                <= previous
            &&& adsr_sample(a, k) >= 0
            &&& b.stage == ADSRStage::Idle ==> adsr_sample(a, k) == 0
        }),
{
    lemma_adsr_after_on_course(a, k);
    lemma_adsr_after_wf(a, k);
    let b = adsr_after(a, k);
    lemma_envelope_direction(b);
    if k > 0 {
        let p = adsr_after(a, (k - 1) as nat);
        assert(b == adsr_step(p));
    }
}

impl ADSR {
    /// An idle envelope with the given settings.
    pub fn new(sustain_config: u8, attack_config: u8, decay_release_config: u8, velocity: u8) -> (r:
        ADSR)
        requires
            velocity < 128,
        ensures
            r == adsr_initial(sustain_config, attack_config, decay_release_config, velocity),
            adsr_wf(r),
    {
        proof {
            lemma_rise_table_shaped(attack_config);
            lemma_fall_table_shaped(decay_release_config);
        }
        let config = ADSRConfig::new(sustain_config, attack_config, decay_release_config, velocity);
        ADSR {
            stage: ADSRStage::Idle,
            capacitor: Capacitor::new(
                config.rise_base_and_coefficient,
                config.fall_base_and_coefficient,
            ),
            config,
        }
    }

    /// Sets the velocity amplitude from a 0-127 velocity.
    pub fn set_velocity(&mut self, velocity: u8)
        requires
            velocity < 128,
        ensures
            final(self).stage == old(self).stage,
            final(self).capacitor == old(self).capacitor,
            final(self).config == (ADSRConfig {
                velocity_amplitude: amplitude_of((velocity * 2) as u8),
                ..old(self).config
            }),
            adsr_wf(*old(self)) ==> adsr_wf(*final(self)),
    {
        proof {
            lemma_amplitude_nonneg((velocity * 2) as u8);
        }
        self.config.set_velocity(velocity);
    }

    /// Starts a fresh note: the level drops to zero and the attack begins.
    pub fn play(&mut self, velocity: u8)
        requires
            velocity < 128,
        ensures
            *final(self) == adsr_played(*old(self), velocity),
            adsr_wf(*old(self)) ==> adsr_wf(*final(self)),
            adsr_wf(*old(self)) ==> adsr_on_course(*final(self)),
    {
        proof {
            lemma_amplitude_nonneg((velocity * 2) as u8);
        }
        self.capacitor.set_level(0);
        self.config.set_velocity(velocity);
        self.stage.play();
    }

    /// Restarts the attack from the current level, towards a new velocity.
    pub fn retrigger(&mut self, velocity: u8)
        requires
            velocity < 128,
        ensures
            *final(self) == adsr_retriggered(*old(self), velocity),
            adsr_wf(*old(self)) ==> adsr_wf(*final(self)),
    {
        proof {
            lemma_amplitude_nonneg((velocity * 2) as u8);
        }
        self.config.set_velocity(velocity);
        self.stage.play();
    }

    /// Enters Release from Attack, Decay or Sustain; no effect otherwise.
    pub fn stop_playing(&mut self)
        ensures
            *final(self) == adsr_stopped(*old(self)),
            adsr_wf(*old(self)) ==> adsr_wf(*final(self)),
    {
        self.stage.stop_playing();
    }

    /// Enters QuickRelease from any active stage; no effect when idle.
    pub fn quick_release(&mut self)
        ensures
            *final(self) == adsr_quick_released(*old(self)),
            adsr_wf(*old(self)) ==> adsr_wf(*final(self)),
    {
        self.stage.quick_release();
    }

    /// Advances one step and returns the emitted Q31 level.
    pub fn progress(&mut self) -> (r: i32)
        ensures
            *final(self) == adsr_step(*old(self)),
            r == adsr_level(*old(self)),
            adsr_wf(*old(self)) ==> adsr_wf(*final(self)),
    {
        proof {
            if adsr_wf(*self) {
                lemma_envelope_direction(*self);
            }
        }
        match self.stage {
            ADSRStage::Idle => 0,
            ADSRStage::Attack => {
                self.capacitor.set_target(self.config.velocity_amplitude);
                let status = self.capacitor.step();
                if status == CapacitorStatus::ReachedTarget {
                    self.stage = ADSRStage::Decay;
                }
                self.capacitor.get_level()
            },
            ADSRStage::Decay => {
                let target = q31_saturating_mul(
                    self.config.sustain_level,
                    self.config.velocity_amplitude,
                );
                self.capacitor.set_target(target);
                let status = self.capacitor.step();
                if status == CapacitorStatus::ReachedTarget {
                    self.stage = ADSRStage::Sustain;
                }
                self.capacitor.get_level()
            },
            ADSRStage::Sustain => self.capacitor.get_level(),
            ADSRStage::Release => {
                self.capacitor.set_target(0);
                let status = self.capacitor.step();
                if status == CapacitorStatus::ReachedTarget {
                    self.stage = ADSRStage::Idle;
                }
                self.capacitor.get_level()
            },
            ADSRStage::QuickRelease => {
                self.capacitor.quick_discharge();
                let status = self.capacitor.step();
                if status == CapacitorStatus::ReachedTarget {
                    self.stage = ADSRStage::Idle;
                }
                self.capacitor.get_level()
            },
        }
    }

    /// Fills `buffer` with successive envelope samples, one step per element,
    /// each the Q31 level narrowed to Q15.
    pub fn get_samples(&mut self, buffer: &mut [Q15])
        ensures
            final(buffer)@.len() == old(buffer)@.len(),
            *final(self) == adsr_after(*old(self), old(buffer)@.len()),
            forall|i: int|
                0 <= i < old(buffer)@.len() ==> final(buffer)@[i].bits == adsr_sample(
                    *old(self),
                    i as nat,
                ),
            adsr_wf(*old(self)) ==> adsr_wf(*final(self)),
    {
        proof {
            if adsr_wf(*self) {
                lemma_adsr_after_wf(*self, old(buffer)@.len() as nat);
            }
        }
        let n = buffer.len();
        let mut i: usize = 0;
        while i < n
            invariant
                n == old(buffer)@.len(),
                buffer@.len() == n,
                i <= n,
                *self == adsr_after(*old(self), i as nat),
                forall|j: int| 0 <= j < i ==> buffer@[j].bits == adsr_sample(*old(self), j as nat),
            decreases n - i,
        {
            let level = self.progress();
            buffer[i] = Q15 { bits: q31_to_q15(level) };
            i = i + 1;
        }
    }

    /// Sets the sustain level from a 0-255 setting.
    pub fn set_sustain(&mut self, sustain_config: u8)
        ensures
            final(self).stage == old(self).stage,
            final(self).capacitor == old(self).capacitor,
            final(self).config == (ADSRConfig {
                sustain_level: amplitude_of(sustain_config),
                ..old(self).config
            }),
            adsr_wf(*old(self)) ==> adsr_wf(*final(self)),
    {
        proof {
            lemma_amplitude_nonneg(sustain_config);
        }
        self.config.set_sustain(sustain_config);
    }

    /// Sets the attack curve from a 0-255 setting, in the settings and the capacitor.
    pub fn set_attack(&mut self, attack_config: u8)
        ensures
            final(self).stage == old(self).stage,
            final(self).config == (ADSRConfig {
                rise_base_and_coefficient: rise_pair(attack_config),
                ..old(self).config
            }),
            final(self).capacitor == (Capacitor {
                rise_coeff: rise_pair(attack_config),
                ..old(self).capacitor
            }),
            adsr_wf(*old(self)) ==> adsr_wf(*final(self)),
    {
        proof {
            lemma_rise_table_shaped(attack_config);
        }
        self.config.set_rise(attack_config);
        self.capacitor.set_rise_coeff(self.config.rise_base_and_coefficient);
    }

    /// Sets the decay/release curve from a 0-255 setting, in the settings and the capacitor.
    pub fn set_decay_release(&mut self, decay_release_config: u8)
        ensures
            final(self).stage == old(self).stage,
            final(self).config == (ADSRConfig {
                fall_base_and_coefficient: fall_pair(decay_release_config),
                ..old(self).config
            }),
            final(self).capacitor == (Capacitor {
                fall_coeff: fall_pair(decay_release_config),
                ..old(self).capacitor
            }),
            adsr_wf(*old(self)) ==> adsr_wf(*final(self)),
    {
        proof {
            lemma_fall_table_shaped(decay_release_config);
        }
        self.config.set_fall(decay_release_config);
        self.capacitor.set_fall_coeff(self.config.fall_base_and_coefficient);
    }

    /// The current stage.
    pub fn get_stage(&self) -> (r: ADSRStage)
        ensures
            r == self.stage,
    {
        self.stage
    }

    /// The current Q31 level of the envelope.
    pub fn get_level(&self) -> (r: i32)
        ensures
            r == self.capacitor.current,
    {
        self.capacitor.current
    }

    /// Whether the envelope is idle.
    pub fn is_idle(&self) -> (r: bool)
        ensures
            r == (self.stage == ADSRStage::Idle),
    {
        self.stage == ADSRStage::Idle
    }

    /// Whether the envelope is in Release.
    pub fn is_in_release(&self) -> (r: bool)
        ensures
            r == (self.stage == ADSRStage::Release),
    {
        self.stage == ADSRStage::Release
    }

    /// Whether the envelope is in QuickRelease.
    pub fn is_in_quick_release(&self) -> (r: bool)
        ensures
            r == (self.stage == ADSRStage::QuickRelease),
    {
        self.stage == ADSRStage::QuickRelease
    }
}

} // verus!
