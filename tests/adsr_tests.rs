use fixed::types::I1F31;
use synth_engine::adsr::linear_amplitude;
use synth_engine::{ADSRStage, Q15, ADSR};

fn q31(v: f64) -> i32 {
    I1F31::from_num(v).to_bits()
}

fn zero() -> Q15 {
    Q15::from_bits(0)
}

fn create_test_adsr() -> ADSR {
    ADSR::new(200, 50, 100, 100)
}

fn advance_to_stage(adsr: &mut ADSR, target_stage: ADSRStage, max_iterations: usize) -> bool {
    let mut buffer = [zero(); 1];
    for _ in 0..max_iterations {
        adsr.get_samples(&mut buffer);
        if adsr.stage == target_stage {
            return true;
        }
    }
    false
}

fn get_envelope_level(adsr: &ADSR) -> i32 {
    adsr.capacitor.get_level()
}

#[test]
fn test_attack_to_decay_transition() {
    let mut adsr = ADSR::new(200, 10, 100, 100);
    adsr.play(100);

    assert_eq!(adsr.stage, ADSRStage::Attack, "Should start in Attack stage");

    let mut prev_level = 0;
    let mut reached_decay = false;

    for _ in 0..10000 {
        let mut buffer = [zero(); 1];
        adsr.get_samples(&mut buffer);
        let current_level = get_envelope_level(&adsr);

        if adsr.stage == ADSRStage::Decay {
            reached_decay = true;
            break;
        }

        assert!(current_level >= prev_level, "Attack envelope should increase monotonically");
        prev_level = current_level;
    }

    assert!(reached_decay, "Should transition from Attack to Decay");
}

#[test]
fn test_decay_to_sustain_transition() {
    let mut adsr = ADSR::new(200, 10, 10, 100);
    adsr.play(100);

    assert!(advance_to_stage(&mut adsr, ADSRStage::Decay, 10000), "Should reach Decay stage");

    let mut prev_level = get_envelope_level(&adsr);
    let mut reached_sustain = false;

    for _ in 0..10000 {
        let mut buffer = [zero(); 1];
        adsr.get_samples(&mut buffer);
        let current_level = get_envelope_level(&adsr);

        if adsr.stage == ADSRStage::Sustain {
            reached_sustain = true;
            break;
        }

        assert!(current_level <= prev_level, "Decay envelope should decrease monotonically");
        prev_level = current_level;
    }

    assert!(reached_sustain, "Should transition from Decay to Sustain");
}

#[test]
fn test_sustain_holds_steady() {
    let mut adsr = create_test_adsr();
    adsr.play(100);

    assert!(advance_to_stage(&mut adsr, ADSRStage::Sustain, 10000), "Should reach Sustain stage");

    let sustain_level = get_envelope_level(&adsr);

    for _ in 0..1000 {
        let mut buffer = [zero(); 1];
        adsr.get_samples(&mut buffer);
        assert_eq!(get_envelope_level(&adsr), sustain_level, "Sustain level should remain constant");
        assert_eq!(adsr.stage, ADSRStage::Sustain, "Should remain in Sustain");
    }
}

#[test]
fn test_release_to_idle_transition() {
    let mut adsr = create_test_adsr();
    adsr.play(100);

    assert!(advance_to_stage(&mut adsr, ADSRStage::Sustain, 10000), "Should reach Sustain stage");

    adsr.stop_playing();
    assert_eq!(adsr.stage, ADSRStage::Release, "Should enter Release stage");

    assert!(advance_to_stage(&mut adsr, ADSRStage::Idle, 10000), "Should reach Idle stage");

    assert_eq!(get_envelope_level(&adsr), 0, "Should have zero level when idle");
}

#[test]
fn test_quick_release_faster_than_normal() {
    let mut adsr_normal = ADSR::new(200, 10, 200, 100);
    let mut adsr_quick = ADSR::new(200, 10, 200, 100);

    adsr_normal.play(100);
    adsr_quick.play(100);

    assert!(
        advance_to_stage(&mut adsr_normal, ADSRStage::Sustain, 50000),
        "Normal ADSR should reach Sustain"
    );
    assert!(
        advance_to_stage(&mut adsr_quick, ADSRStage::Sustain, 50000),
        "Quick ADSR should reach Sustain"
    );

    adsr_normal.stop_playing();
    adsr_quick.quick_release();

    let mut normal_iterations = 0;
    let mut quick_iterations = 0;

    let mut buffer = [zero(); 1];

    while !adsr_normal.is_idle() && normal_iterations < 100000 {
        adsr_normal.get_samples(&mut buffer);
        normal_iterations += 1;
    }

    while !adsr_quick.is_idle() && quick_iterations < 100000 {
        adsr_quick.get_samples(&mut buffer);
        quick_iterations += 1;
    }

    assert!(
        quick_iterations < normal_iterations,
        "Quick release ({} iterations) should be faster than normal release ({} iterations)",
        quick_iterations,
        normal_iterations
    );
}

#[test]
fn test_attack_envelope_increases_monotonically() {
    let mut adsr = ADSR::new(200, 50, 100, 100);
    adsr.play(100);

    let mut levels = Vec::new();
    let mut buffer = [zero(); 1];

    for _ in 0..1000 {
        adsr.get_samples(&mut buffer);
        levels.push(get_envelope_level(&adsr));

        if adsr.stage != ADSRStage::Attack {
            break;
        }
    }

    for i in 1..levels.len() {
        assert!(
            levels[i] >= levels[i - 1],
            "Attack envelope should increase monotonically: level[{}]={:?} < level[{}]={:?}",
            i,
            levels[i],
            i - 1,
            levels[i - 1]
        );
    }

    assert!(!levels.is_empty(), "Should have collected some attack samples");
}

#[test]
fn test_decay_envelope_decreases_monotonically() {
    let mut adsr = ADSR::new(100, 10, 100, 100);
    adsr.play(100);

    assert!(advance_to_stage(&mut adsr, ADSRStage::Decay, 10000), "Should reach Decay stage");

    let mut levels = Vec::new();
    let mut buffer = [zero(); 1];

    for _ in 0..1000 {
        adsr.get_samples(&mut buffer);
        levels.push(get_envelope_level(&adsr));

        if adsr.stage != ADSRStage::Decay {
            break;
        }
    }

    for i in 1..levels.len() {
        assert!(levels[i] <= levels[i - 1], "Decay envelope should decrease monotonically");
    }

    assert!(!levels.is_empty(), "Should have collected some decay samples");
}

#[test]
fn test_release_decreases_to_zero() {
    let mut adsr = create_test_adsr();
    adsr.play(100);

    assert!(advance_to_stage(&mut adsr, ADSRStage::Sustain, 10000), "Should reach Sustain stage");

    adsr.stop_playing();

    let mut levels = Vec::new();
    let mut buffer = [zero(); 1];

    for _ in 0..10000 {
        adsr.get_samples(&mut buffer);
        levels.push(get_envelope_level(&adsr));

        if adsr.stage == ADSRStage::Idle {
            break;
        }
    }

    for i in 1..levels.len() {
        assert!(levels[i] <= levels[i - 1], "Release envelope should decrease monotonically");
    }

    assert_eq!(adsr.stage, ADSRStage::Idle, "Should reach Idle stage");
    assert_eq!(get_envelope_level(&adsr), 0, "Final level should be zero");
}

#[test]
fn test_idle_outputs_zero() {
    let mut adsr = create_test_adsr();

    let mut buffer = [zero(); 100];
    adsr.get_samples(&mut buffer);

    for sample in buffer.iter() {
        assert_eq!(*sample, zero(), "Idle ADSR should output zero");
    }

    assert_eq!(adsr.stage, ADSRStage::Idle, "Should remain in Idle stage");
}

#[test]
fn test_velocity_affects_attack_peak() {
    let mut adsr_low = ADSR::new(200, 50, 100, 64);
    let mut adsr_high = ADSR::new(200, 50, 100, 127);

    adsr_low.play(64);
    adsr_high.play(127);

    assert!(
        advance_to_stage(&mut adsr_low, ADSRStage::Decay, 10000),
        "Low velocity ADSR should reach Decay"
    );
    assert!(
        advance_to_stage(&mut adsr_high, ADSRStage::Decay, 10000),
        "High velocity ADSR should reach Decay"
    );

    let low_peak = get_envelope_level(&adsr_low);
    let high_peak = get_envelope_level(&adsr_high);

    assert!(
        high_peak > low_peak,
        "Higher velocity should produce higher attack peak: high={:?}, low={:?}",
        high_peak,
        low_peak
    );
}

#[test]
fn test_velocity_affects_sustain_amplitude() {
    let mut adsr_low = ADSR::new(200, 10, 10, 64);
    let mut adsr_high = ADSR::new(200, 10, 10, 127);

    adsr_low.play(64);
    adsr_high.play(127);

    assert!(
        advance_to_stage(&mut adsr_low, ADSRStage::Sustain, 50000),
        "Low velocity ADSR should reach Sustain"
    );
    assert!(
        advance_to_stage(&mut adsr_high, ADSRStage::Sustain, 50000),
        "High velocity ADSR should reach Sustain"
    );

    let low_sustain = get_envelope_level(&adsr_low);
    let high_sustain = get_envelope_level(&adsr_high);

    assert!(
        high_sustain > low_sustain,
        "Higher velocity should produce higher sustain level: high={:?}, low={:?}",
        high_sustain,
        low_sustain
    );
}

#[test]
fn test_velocity_zero_produces_zero() {
    let mut adsr = ADSR::new(200, 50, 100, 1);
    adsr.play(1);

    let mut buffer = [zero(); 100];

    for _ in 0..100 {
        adsr.get_samples(&mut buffer);
    }

    for sample in buffer.iter() {
        let bits = sample.to_bits();
        let abs_val = if bits < 0 { -bits } else { bits };
        assert!(abs_val < 1000, "Minimum velocity should produce near-zero samples, got {:?}", sample);
    }
}

#[test]
fn test_sustain_level_affects_decay_target() {
    let mut adsr_high_sustain = ADSR::new(255, 50, 100, 100);
    let mut adsr_low_sustain = ADSR::new(50, 50, 100, 100);

    adsr_high_sustain.play(100);
    adsr_low_sustain.play(100);

    assert!(
        advance_to_stage(&mut adsr_high_sustain, ADSRStage::Sustain, 10000),
        "High sustain ADSR should reach Sustain"
    );
    assert!(
        advance_to_stage(&mut adsr_low_sustain, ADSRStage::Sustain, 10000),
        "Low sustain ADSR should reach Sustain"
    );

    let high_level = get_envelope_level(&adsr_high_sustain);
    let low_level = get_envelope_level(&adsr_low_sustain);

    assert!(
        high_level > low_level,
        "Higher sustain config should produce higher sustain level: high={:?}, low={:?}",
        high_level,
        low_level
    );
}

#[test]
fn test_sustain_zero_decays_to_zero() {
    let mut adsr = ADSR::new(0, 50, 100, 100);
    adsr.play(100);

    assert!(advance_to_stage(&mut adsr, ADSRStage::Sustain, 10000), "Should reach Sustain stage");

    let sustain_level = get_envelope_level(&adsr);

    assert!(
        sustain_level < q31(0.01),
        "Zero sustain config should produce near-zero level, got {:?}",
        sustain_level
    );
}

#[test]
fn test_set_attack_while_playing() {
    let mut adsr = ADSR::new(200, 200, 100, 100);
    adsr.play(100);

    for _ in 0..100 {
        let mut buffer = [zero(); 1];
        adsr.get_samples(&mut buffer);
    }

    assert_eq!(adsr.stage, ADSRStage::Attack, "Should be in Attack stage");

    adsr.set_attack(10);

    assert!(
        advance_to_stage(&mut adsr, ADSRStage::Decay, 10000),
        "Should reach Decay after changing attack config"
    );
}

#[test]
fn test_set_sustain_in_decay() {
    let mut adsr = ADSR::new(200, 10, 100, 100);
    adsr.play(100);

    assert!(advance_to_stage(&mut adsr, ADSRStage::Decay, 10000), "Should reach Decay stage");

    adsr.set_sustain(100);

    assert!(advance_to_stage(&mut adsr, ADSRStage::Sustain, 10000), "Should reach Sustain stage");

    let final_level = get_envelope_level(&adsr);

    let expected = I1F31::from_bits(linear_amplitude(100));
    let velocity_amplitude = I1F31::from_bits(linear_amplitude(200));
    let expected_sustain = expected.saturating_mul(velocity_amplitude).to_bits();

    let diff = if final_level > expected_sustain {
        final_level - expected_sustain
    } else {
        expected_sustain - final_level
    };

    assert!(
        diff < q31(0.01),
        "Should reach new sustain target: expected {:?}, got {:?}",
        expected_sustain,
        final_level
    );
}

#[test]
fn test_set_decay_release_while_in_release() {
    let mut adsr = ADSR::new(200, 10, 200, 100);
    adsr.play(100);

    assert!(advance_to_stage(&mut adsr, ADSRStage::Sustain, 50000), "Should reach Sustain stage");

    adsr.stop_playing();
    assert_eq!(adsr.stage, ADSRStage::Release);

    for _ in 0..100 {
        let mut buffer = [zero(); 1];
        adsr.get_samples(&mut buffer);
    }

    adsr.set_decay_release(10);

    let mut iterations = 0;
    while !adsr.is_idle() && iterations < 10000 {
        let mut buffer = [zero(); 1];
        adsr.get_samples(&mut buffer);
        iterations += 1;
    }

    assert!(adsr.is_idle(), "Should reach idle after changing to fast release");
    assert!(
        iterations < 5000,
        "Should reach idle relatively quickly with fast release, took {} iterations",
        iterations
    );
}

#[test]
fn test_retrigger_vs_play() {
    let mut adsr = create_test_adsr();
    adsr.play(100);

    for _ in 0..100 {
        let mut buffer = [zero(); 1];
        adsr.get_samples(&mut buffer);
    }

    let level_before_retrigger = get_envelope_level(&adsr);
    assert!(level_before_retrigger > 0, "Should have non-zero level before retrigger");

    adsr.retrigger(100);
    assert_eq!(adsr.stage, ADSRStage::Attack, "Should be in Attack after retrigger");

    let mut buffer = [zero(); 1];
    adsr.get_samples(&mut buffer);

    let level_after_retrigger = get_envelope_level(&adsr);

    assert!(
        level_after_retrigger >= level_before_retrigger,
        "Retrigger should continue from current level: before={:?}, after={:?}",
        level_before_retrigger,
        level_after_retrigger
    );
}

#[test]
fn test_play_resets_level() {
    let mut adsr = create_test_adsr();
    adsr.play(100);

    assert!(advance_to_stage(&mut adsr, ADSRStage::Sustain, 10000), "Should reach Sustain stage");

    let sustain_level = get_envelope_level(&adsr);
    assert!(sustain_level > 0, "Should have non-zero sustain level");

    adsr.play(100);

    let mut buffer = [zero(); 1];
    adsr.get_samples(&mut buffer);

    let level_after_play = get_envelope_level(&adsr);

    assert!(
        level_after_play < q31(0.1),
        "Play should reset level to near zero, got {:?}",
        level_after_play
    );
}

fn gradual_retrigger(first_velocity: u8, second_velocity: u8) {
    let mut adsr = create_test_adsr();
    adsr.play(first_velocity);

    for _ in 0..100 {
        let mut buffer = [zero(); 1];
        adsr.get_samples(&mut buffer);
    }

    let level_before_retrigger = get_envelope_level(&adsr);
    assert!(level_before_retrigger > 0, "Should have non-zero level before retrigger");

    adsr.retrigger(second_velocity);
    assert_eq!(adsr.stage, ADSRStage::Attack, "Should be in Attack after retrigger");

    let mut buffer = [zero(); 1];
    let mut levels = Vec::new();
    for _ in 0..10 {
        adsr.get_samples(&mut buffer);
        levels.push(get_envelope_level(&adsr));
    }

    let first_level_after = levels[0];
    let level_diff = (level_before_retrigger as i64 - first_level_after as i64).abs();
    assert!(
        level_diff < q31(0.1) as i64,
        "Level should not jump suddenly on retrigger: before={:?}, after={:?}, diff={:?}",
        level_before_retrigger,
        first_level_after,
        level_diff
    );

    for i in 1..levels.len() {
        let step_diff = (levels[i] as i64 - levels[i - 1] as i64).abs();
        assert!(
            step_diff < q31(0.1) as i64,
            "Each step should be gradual, not sudden jumps: step {}->{}",
            i - 1,
            i
        );
    }
}

#[test]
fn test_retrigger_different_velocity_transitions_gradually() {
    // decreasing velocity, then increasing velocity
    gradual_retrigger(127, 64);
    gradual_retrigger(64, 127);
}

#[test]
fn test_stop_playing_when_idle() {
    let mut adsr = create_test_adsr();

    assert!(adsr.is_idle(), "Should start idle");

    adsr.stop_playing();

    assert!(adsr.is_idle(), "Should remain idle after stop_playing");

    let mut buffer = [zero(); 10];
    adsr.get_samples(&mut buffer);

    for sample in buffer.iter() {
        assert_eq!(*sample, zero(), "Should output zero when idle");
    }
}

#[test]
fn test_quick_release_when_idle() {
    let mut adsr = create_test_adsr();

    assert!(adsr.is_idle(), "Should start idle");

    adsr.quick_release();

    assert!(adsr.is_idle(), "Should remain idle after quick_release");
}

#[test]
fn test_multiple_play_calls() {
    let mut adsr = create_test_adsr();
    adsr.play(100);

    for _ in 0..100 {
        let mut buffer = [zero(); 1];
        adsr.get_samples(&mut buffer);
    }

    let level_mid_attack = get_envelope_level(&adsr);
    assert!(level_mid_attack > 0, "Should have progressed in attack");

    adsr.play(100);

    assert_eq!(adsr.stage, ADSRStage::Attack, "Should be in Attack stage");

    let mut buffer = [zero(); 1];
    adsr.get_samples(&mut buffer);

    let level_after_second_play = get_envelope_level(&adsr);

    assert!(
        level_after_second_play < level_mid_attack,
        "Second play() should restart envelope: previous={:?}, new={:?}",
        level_mid_attack,
        level_after_second_play
    );
}
