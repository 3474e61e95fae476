use synth_engine::tables::SINE_WAVETABLE;
use synth_engine::{CmsisRustOperations, MidiEvent, SynthEngine, Q15, WINDOW_SIZE};

type TestOps = CmsisRustOperations;

const TEST_VOICE_BANK_SIZE: usize = 4;

const TEST_SUSTAIN: u8 = 200;
const TEST_ATTACK: u8 = 50;
const TEST_DECAY_RELEASE: u8 = 100;

const FAST_SUSTAIN: u8 = 200;
const FAST_ATTACK: u8 = 10;
const FAST_DECAY_RELEASE: u8 = 10;

type Engine = SynthEngine<'static, TEST_VOICE_BANK_SIZE, WINDOW_SIZE>;

fn setup_synth_engine() -> Engine {
    SynthEngine::new(&SINE_WAVETABLE, TEST_SUSTAIN, TEST_ATTACK, TEST_DECAY_RELEASE)
}

fn setup_fast_synth_engine() -> Engine {
    SynthEngine::new(&SINE_WAVETABLE, FAST_SUSTAIN, FAST_ATTACK, FAST_DECAY_RELEASE)
}

fn note_on(key: u8, vel: u8) -> MidiEvent {
    MidiEvent::NoteOn { key, vel }
}

fn note_off(key: u8) -> MidiEvent {
    MidiEvent::NoteOff { key, vel: 0 }
}

fn zero() -> Q15 {
    Q15::from_bits(0)
}

#[test]
fn test_silence_when_no_notes() {
    let mut se = setup_synth_engine();

    let mut buffer = [zero(); WINDOW_SIZE];
    se.render_samples::<TestOps>(&[], &mut buffer);

    assert!(
        buffer.iter().all(|&s| s == zero()),
        "Output should be silent with no active voices"
    );
}

#[test]
fn test_activity_when_playing() {
    let mut se = setup_synth_engine();

    let mut buffer = [zero(); WINDOW_SIZE];
    se.render_samples::<TestOps>(&[note_on(60, 100)], &mut buffer);

    let non_zero_count = buffer.iter().filter(|&&s| s != zero()).count();
    assert!(non_zero_count > 0, "Output should contain non-zero samples when a note is playing");
}

#[test]
fn test_voice_allocation_correctness() {
    let mut se = setup_synth_engine();

    let mut buffer = [zero(); WINDOW_SIZE];
    se.render_samples::<TestOps>(
        &[note_on(60, 100), note_on(62, 100), note_on(64, 100)],
        &mut buffer,
    );

    assert_eq!(se.get_voice_bank().count_active_voices(), 3, "Should have 3 active voices");
}

#[test]
fn test_voice_stealing_via_queue() {
    let mut se = setup_synth_engine();

    let events = [
        note_on(60, 100),
        note_on(62, 100),
        note_on(64, 100),
        note_on(65, 100),
        note_on(67, 100),
    ];

    let mut buffer = [zero(); WINDOW_SIZE];
    se.render_samples::<TestOps>(&events, &mut buffer);

    assert!(
        se.get_voice_bank().count_active_voices() <= TEST_VOICE_BANK_SIZE,
        "Should not exceed max voice count"
    );

    for _ in 0..10 {
        se.render_samples::<TestOps>(&[], &mut buffer);
    }

    assert_eq!(
        se.get_voice_bank().count_active_voices(),
        TEST_VOICE_BANK_SIZE,
        "All voices should be active after queue processing"
    );
}

#[test]
fn test_envelope_lifecycle_to_idle() {
    let mut se = setup_fast_synth_engine();

    let mut buffer = [zero(); WINDOW_SIZE];
    se.render_samples::<TestOps>(&[note_on(60, 100), note_off(60)], &mut buffer);

    for _ in 1..100 {
        se.render_samples::<TestOps>(&[], &mut buffer);
    }

    assert_eq!(
        se.get_voice_bank().count_active_voices(),
        0,
        "Voice should eventually reach idle state after NoteOff"
    );

    se.render_samples::<TestOps>(&[], &mut buffer);
    assert!(buffer.iter().all(|&s| s == zero()), "Output should be silent after all voices idle");
}

#[test]
fn test_velocity_scaling() {
    let mut se1 = setup_synth_engine();
    let mut se2 = setup_synth_engine();

    let mut buffer1 = [zero(); WINDOW_SIZE];
    let mut buffer2 = [zero(); WINDOW_SIZE];

    se1.render_samples::<TestOps>(&[note_on(69, 127)], &mut buffer1);
    se2.render_samples::<TestOps>(&[note_on(69, 64)], &mut buffer2);
    for _ in 1..10 {
        se1.render_samples::<TestOps>(&[], &mut buffer1);
        se2.render_samples::<TestOps>(&[], &mut buffer2);
    }

    let avg_abs = |buffer: &[Q15]| -> f64 {
        buffer.iter().map(|s| (s.to_bits() as f64 / 32768.0).abs()).sum::<f64>()
            / WINDOW_SIZE as f64
    };
    let avg_abs_1 = avg_abs(&buffer1);
    let avg_abs_2 = avg_abs(&buffer2);

    assert!(
        avg_abs_1 > avg_abs_2,
        "Velocity 127 should produce larger amplitude than velocity 64 (avg {} vs {})",
        avg_abs_1,
        avg_abs_2
    );
}

#[test]
fn test_queue_overflow_handling() {
    let mut se = setup_synth_engine();

    let first: Vec<MidiEvent> =
        (0..TEST_VOICE_BANK_SIZE).map(|i| note_on(60 + i as u8, 100)).collect();

    let mut buffer = [zero(); WINDOW_SIZE];
    se.render_samples::<TestOps>(&first, &mut buffer);

    let overflow: Vec<MidiEvent> = (0..10).map(|i| note_on(70 + i as u8, 100)).collect();
    se.render_samples::<TestOps>(&overflow, &mut buffer);
    for _ in 1..20 {
        se.render_samples::<TestOps>(&[], &mut buffer);
    }

    assert!(
        se.get_voice_bank().count_active_voices() > 0,
        "Should still have active voices after queue overflow"
    );
}

#[test]
fn test_rapid_note_on_off_sequences() {
    let mut se = setup_fast_synth_engine();

    let mut buffer = [zero(); WINDOW_SIZE];

    for _ in 0..20 {
        se.render_samples::<TestOps>(&[note_on(60, 100), note_off(60)], &mut buffer);
    }

    for _ in 0..50 {
        se.render_samples::<TestOps>(&[], &mut buffer);
    }

    assert_eq!(
        se.get_voice_bank().count_active_voices(),
        0,
        "All voices should be idle after rapid on/off sequence"
    );
}

#[test]
fn test_note_off_releases_correct_voice() {
    let mut se = setup_synth_engine();

    let mut buffer = [zero(); WINDOW_SIZE];
    se.render_samples::<TestOps>(&[note_on(60, 100), note_on(64, 100)], &mut buffer);

    assert_eq!(se.get_voice_bank().count_active_voices(), 2);

    se.render_samples::<TestOps>(&[note_off(60)], &mut buffer);

    assert!(
        se.get_voice_bank().count_active_voices() > 0,
        "At least one voice should still be active (note 64)"
    );

    for _ in 0..50 {
        se.render_samples::<TestOps>(&[], &mut buffer);
    }

    assert_eq!(se.get_voice_bank().count_active_voices(), 1, "Note 64 should still be sustained");
}

#[test]
#[should_panic]
fn test_wrong_buffer_size_panics() {
    let mut se = setup_synth_engine();

    let mut buffer = [zero(); 64];
    se.render_samples::<TestOps>(&[], &mut buffer);
}

#[test]
fn test_voice_stealing_doesnt_release_all_voices() {
    let mut se = setup_synth_engine();

    let first: Vec<MidiEvent> =
        (0..TEST_VOICE_BANK_SIZE).map(|i| note_on(60 + i as u8, 100)).collect();

    let mut buffer = [zero(); WINDOW_SIZE];
    se.render_samples::<TestOps>(&first, &mut buffer);

    assert_eq!(se.get_voice_bank().count_active_voices(), TEST_VOICE_BANK_SIZE);

    se.render_samples::<TestOps>(&[note_on(70, 100)], &mut buffer);

    let quick_release_after_first = se.get_voice_bank().count_voices_in_quick_release();
    assert!(
        quick_release_after_first <= 1,
        "Should have at most 1 voice in quick release, got {}",
        quick_release_after_first
    );

    for _ in 0..10 {
        se.render_samples::<TestOps>(&[], &mut buffer);
    }

    assert_eq!(
        se.get_voice_bank().count_active_voices(),
        TEST_VOICE_BANK_SIZE,
        "Should still have all voices active after voice stealing"
    );
}

#[test]
fn test_multiple_queued_notes_release_appropriate_voices() {
    let mut se = setup_synth_engine();

    let first: Vec<MidiEvent> =
        (0..TEST_VOICE_BANK_SIZE).map(|i| note_on(60 + i as u8, 100)).collect();

    let mut buffer = [zero(); WINDOW_SIZE];
    se.render_samples::<TestOps>(&first, &mut buffer);

    let extra: Vec<MidiEvent> = (0..3).map(|i| note_on(70 + i as u8, 100)).collect();
    se.render_samples::<TestOps>(&extra, &mut buffer);
    for _ in 1..5 {
        se.render_samples::<TestOps>(&[], &mut buffer);
    }

    let quick_release_count = se.get_voice_bank().count_voices_in_quick_release();
    assert!(
        quick_release_count <= 3,
        "Should have at most 3 voices in quick release for 3 queued notes, got {}",
        quick_release_count
    );

    assert!(
        quick_release_count < TEST_VOICE_BANK_SIZE,
        "Should not release all {} voices",
        TEST_VOICE_BANK_SIZE
    );
}

#[test]
fn test_quick_release_not_repeated_per_cycle() {
    let mut se = setup_synth_engine();

    let first: Vec<MidiEvent> =
        (0..TEST_VOICE_BANK_SIZE).map(|i| note_on(60 + i as u8, 100)).collect();

    let mut buffer = [zero(); WINDOW_SIZE];
    se.render_samples::<TestOps>(&first, &mut buffer);
    assert_eq!(se.get_voice_bank().count_active_voices(), TEST_VOICE_BANK_SIZE);

    se.render_samples::<TestOps>(&[note_on(70, 100), note_on(72, 100)], &mut buffer);
    let first_count = se.get_voice_bank().count_voices_in_quick_release();

    for _ in 0..5 {
        se.render_samples::<TestOps>(&[], &mut buffer);
    }

    let final_count = se.get_voice_bank().count_voices_in_quick_release();

    assert!(
        first_count <= 2,
        "Should have released at most 2 voices initially for 2 queued notes, got {}",
        first_count
    );

    assert!(
        final_count < TEST_VOICE_BANK_SIZE,
        "Should not have all {} voices in quick release, got {}",
        TEST_VOICE_BANK_SIZE,
        final_count
    );

    for _ in 0..10 {
        se.render_samples::<TestOps>(&[], &mut buffer);
    }

    assert_eq!(
        se.get_voice_bank().count_active_voices(),
        TEST_VOICE_BANK_SIZE,
        "Should have all voices active after queue processing"
    );
}
