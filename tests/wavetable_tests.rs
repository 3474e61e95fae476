use fixed::types::I1F15;
use synth_engine::tables::{
    MIDI_TO_PHASE_INCREMENT, SAW_WAVETABLE, SINE_WAVETABLE, SQUARE_WAVETABLE, TRIANGLE_WAVETABLE,
};
use synth_engine::{CmsisRustOperations, Note, Q15, Wavetable, WavetableOscillator};

type TestOps = CmsisRustOperations;
const TEST_SAMPLE_RATE: u32 = 48000;

fn q15(v: f64) -> i32 {
    I1F15::from_num(v).to_bits() as i32
}

fn zero() -> Q15 {
    Q15::from_bits(0)
}

fn count_zero_crossings(buffer: &[Q15]) -> usize {
    buffer
        .windows(2)
        .filter(|w| {
            let prev_positive = w[0].to_bits() >= 0;
            let curr_positive = w[1].to_bits() >= 0;
            prev_positive != curr_positive
        })
        .count()
}

fn calculate_dc_offset(buffer: &[Q15]) -> f64 {
    let sum: f64 = buffer.iter().map(|v| v.to_bits() as f64 / 32768.0).sum();
    sum / buffer.len() as f64
}

fn find_max_abs(buffer: &[Q15]) -> i32 {
    buffer.iter().map(|v| (v.to_bits() as i32).abs().min(32767)).max().unwrap_or(0)
}

fn all_in_range(buffer: &[Q15]) -> bool {
    buffer.iter().all(|v| v.to_bits() >= i16::MIN && v.to_bits() <= i16::MAX)
}

fn check_continuity(buffer: &[Q15], max_jump: i32) -> bool {
    buffer.windows(2).all(|w| (w[1].to_bits() as i32 - w[0].to_bits() as i32).abs() <= max_jump)
}

fn create_osc(wavetable: &'static [i16; 256], note: Note) -> WavetableOscillator<'static> {
    WavetableOscillator {
        phase: 0,
        phase_increment: MIDI_TO_PHASE_INCREMENT[note.as_u8() as usize],
        wavetable: Wavetable(wavetable),
    }
}

#[test]
fn test_output_always_in_valid_range() {
    let note = Note::new(69);
    let mut osc = create_osc(&SINE_WAVETABLE, note);
    let mut buffer = [zero(); 128];

    osc.get_samples::<TestOps, 128>(&mut buffer);

    assert!(all_in_range(&buffer));
}

#[test]
fn test_phase_resets_on_set_note() {
    let note1 = Note::new(60);
    let note2 = Note::new(72);
    let mut osc = create_osc(&SINE_WAVETABLE, note1);

    let mut buffer = [zero(); 100];
    osc.get_samples::<TestOps, 100>(&mut buffer);

    assert_ne!(osc.phase, 0);

    osc.set_note(&note2);
    assert_eq!(osc.phase, 0);
}

#[test]
fn test_sequential_calls_maintain_continuity() {
    let note = Note::new(69);
    let mut osc = create_osc(&SINE_WAVETABLE, note);

    let mut buffer1 = [zero(); 64];
    let mut buffer2 = [zero(); 64];

    osc.get_samples::<TestOps, 64>(&mut buffer1);
    osc.get_samples::<TestOps, 64>(&mut buffer2);

    let last_of_first = buffer1[63].to_bits() as i32;
    let first_of_second = buffer2[0].to_bits() as i32;

    let max_jump = q15(0.2);

    let diff = (first_of_second - last_of_first).abs();
    assert!(diff <= max_jump, "Discontinuity between buffers: {} exceeds {}", diff, max_jump);
}

#[test]
fn test_no_internal_discontinuities() {
    let note = Note::new(69);
    let mut osc = create_osc(&SINE_WAVETABLE, note);
    let mut buffer = [zero(); 256];

    osc.get_samples::<TestOps, 256>(&mut buffer);

    assert!(check_continuity(&buffer, q15(0.2)), "Found discontinuity in waveform");
}

fn one_second(osc: &mut WavetableOscillator<'static>) -> Vec<Q15> {
    let mut buffer = vec![zero(); TEST_SAMPLE_RATE as usize];
    for chunk in buffer.chunks_mut(128) {
        let mut temp = [zero(); 128];
        osc.get_samples::<TestOps, 128>(&mut temp);
        let n = chunk.len();
        chunk.copy_from_slice(&temp[..n]);
    }
    buffer
}

#[test]
fn test_frequency_accuracy_via_zero_crossings() {
    let note = Note::new(69);
    let mut osc = create_osc(&SINE_WAVETABLE, note);

    let buffer = one_second(&mut osc);

    let zero_crossings = count_zero_crossings(&buffer);
    let cycles = zero_crossings as f64 / 2.0;

    let expected_freq = 440.0;
    let tolerance = expected_freq * 0.01;

    assert!(
        (cycles - expected_freq).abs() < tolerance,
        "Frequency mismatch: got {} Hz, expected {} Hz",
        cycles,
        expected_freq
    );
}

#[test]
fn test_sine_wave_dc_offset_near_zero() {
    let note = Note::new(69);
    let mut osc = create_osc(&SINE_WAVETABLE, note);

    let mut buffer = [zero(); 4096];
    osc.get_samples::<TestOps, 4096>(&mut buffer);

    let dc_offset = calculate_dc_offset(&buffer);

    assert!(dc_offset.abs() < 0.01, "DC offset too large: {}", dc_offset);
}

#[test]
fn test_sine_wave_reaches_near_maximum() {
    let note = Note::new(60);
    let mut osc = create_osc(&SINE_WAVETABLE, note);

    let mut buffer = [zero(); 2048];
    osc.get_samples::<TestOps, 2048>(&mut buffer);

    let max_value = find_max_abs(&buffer);

    let expected_min = q15(0.95);
    assert!(
        max_value >= expected_min,
        "Peak value {} too low, expected at least {}",
        max_value,
        expected_min
    );
}

#[test]
fn test_triangle_wave_dc_offset_near_zero() {
    let note = Note::new(69);
    let mut osc = create_osc(&TRIANGLE_WAVETABLE, note);

    let mut buffer = [zero(); 4096];
    osc.get_samples::<TestOps, 4096>(&mut buffer);

    let dc_offset = calculate_dc_offset(&buffer);

    assert!(dc_offset.abs() < 0.01, "DC offset too large: {}", dc_offset);
}

#[test]
fn test_saw_wave_dc_offset_near_zero() {
    let note = Note::new(69);
    let mut osc = create_osc(&SAW_WAVETABLE, note);

    let mut buffer = [zero(); 4096];
    osc.get_samples::<TestOps, 4096>(&mut buffer);

    let dc_offset = calculate_dc_offset(&buffer);

    assert!(dc_offset.abs() < 0.02, "DC offset too large: {}", dc_offset);
}

#[test]
fn test_square_wave_alternates() {
    let note = Note::new(60);
    let mut osc = create_osc(&SQUARE_WAVETABLE, note);

    let mut buffer = [zero(); 1024];
    osc.get_samples::<TestOps, 1024>(&mut buffer);

    let crossings = count_zero_crossings(&buffer);
    assert!(crossings > 10, "Square wave should have many transitions");

    let max_value = find_max_abs(&buffer);
    assert!(max_value > q15(0.8));
}

#[test]
fn test_deterministic_output() {
    let note = Note::new(69);

    let mut osc1 = create_osc(&SINE_WAVETABLE, note);
    let mut osc2 = create_osc(&SINE_WAVETABLE, note);

    let mut buffer1 = [zero(); 256];
    let mut buffer2 = [zero(); 256];

    osc1.get_samples::<TestOps, 256>(&mut buffer1);
    osc2.get_samples::<TestOps, 256>(&mut buffer2);

    assert_eq!(buffer1, buffer2, "Same inputs should produce same outputs");
}

#[test]
fn test_different_notes_produce_different_frequencies() {
    let mut osc_low = create_osc(&SINE_WAVETABLE, Note::new(60));
    let mut osc_high = create_osc(&SINE_WAVETABLE, Note::new(72));

    let buffer_low = one_second(&mut osc_low);
    let buffer_high = one_second(&mut osc_high);

    let crossings_low = count_zero_crossings(&buffer_low);
    let crossings_high = count_zero_crossings(&buffer_high);

    let ratio = crossings_high as f64 / crossings_low as f64;

    assert!((ratio - 2.0).abs() < 0.04, "Octave ratio incorrect: got {}, expected ~2.0", ratio);
}

#[test]
fn test_phase_wrapping_behavior() {
    let note = Note::new(69);
    let mut osc = create_osc(&SINE_WAVETABLE, note);

    let mut buffer = [zero(); 4096];
    osc.get_samples::<TestOps, 4096>(&mut buffer);

    assert!(all_in_range(&buffer));
    assert!(check_continuity(&buffer, q15(0.1)));
}
