//! Wavetable oscillators with linear interpolation between table entries.
use crate::fixed_point::{clamp16, q15_mul_spec, u8f24_integer_part, u8f24_wrapping_add, Q15};
use crate::kernel::CmsisOperations;
use crate::tables::MIDI_TO_PHASE_INCREMENT;
use crate::voice_bank::Note;
use vstd::prelude::*;

verus! {

/// One cycle of a waveform: 256 Q15 samples.
#[derive(Clone, Copy, Debug)]
pub struct Wavetable<'a>(pub &'a [i16; 256]);

/// The table entry that a U8F24 phase points at: its integer part.
pub open spec fn phase_index(phase: u32) -> int {
    phase as int / 0x100_0000
}

/// The interpolation weight of the next entry: the first 15 fraction bits of
/// the phase, as a Q15 value in `[0, 1)`.
pub open spec fn phase_weight(phase: u32) -> int {
    (phase as int / 0x200) % 0x8000
}

/// The interpolated sample at `phase`:
/// `current × (1 - weight) + next × weight`, with `1` read as the largest Q15 value.
pub open spec fn interpolated(table: [i16; 256], phase: u32) -> int {
    let i = phase_index(phase);
    let w = phase_weight(phase);
    clamp16(
        q15_mul_spec(table@[i] as int, 0x7fff - w) + q15_mul_spec(
            table@[(i + 1) % 256] as int,
            w,
        ),
    )
}

/// The phase after `n` increments, wrapping modulo 2^32.
pub open spec fn phase_after(phase: u32, increment: u32, n: nat) -> u32
    decreases n,
{
    if n == 0 {
        phase
    } else {
        ((phase_after(phase, increment, (n - 1) as nat) as int + increment as int)
            % 0x1_0000_0000) as u32
    }
}

/// The U8F24 phase increment of a MIDI note.
pub open spec fn note_increment(note: u8) -> u32 {
    MIDI_TO_PHASE_INCREMENT@[note as int]
}

/// The oscillator after `set_note(note)`: phase zero, the note's increment.
pub open spec fn with_note<'a>(o: WavetableOscillator<'a>, note: u8) -> WavetableOscillator<'a> {
    WavetableOscillator { phase: 0, phase_increment: note_increment(note), ..o }
}

/// A periodic waveform generator reading a wavetable at a U8F24 phase.
#[derive(Clone, Copy, Debug)]
pub struct WavetableOscillator<'a> {
    pub phase: u32,
    pub phase_increment: u32,
    pub wavetable: Wavetable<'a>,
}

impl<'a> WavetableOscillator<'a> {
    /// A silent oscillator (zero phase and increment) on `wavetable`.
    pub fn new(wavetable: &'a [i16; 256]) -> (r: WavetableOscillator<'a>)
        ensures
            r.phase == 0,
            r.phase_increment == 0,
            *r.wavetable.0 == *wavetable,
    {
        WavetableOscillator { phase: 0, phase_increment: 0, wavetable: Wavetable(wavetable) }
    }

    /// Fills `buffer` with successive interpolated samples, advancing the phase
    /// by the increment after each one.
    pub fn get_samples<T: CmsisOperations, const LEN: usize>(&mut self, buffer: &mut [Q15; LEN])
        ensures
            final(self).phase == phase_after(old(self).phase, old(self).phase_increment, LEN as nat),
            final(self).phase_increment == old(self).phase_increment,
            *final(self).wavetable.0 == *old(self).wavetable.0,
            forall|i: int|
                0 <= i < LEN ==> (#[trigger] final(buffer)@[i]).bits == interpolated(
                    *old(self).wavetable.0,
                    phase_after(old(self).phase, old(self).phase_increment, i as nat),
                ),
    {
        let mut sample_current = [Q15 { bits: 0 };LEN];
        let mut sample_next = [Q15 { bits: 0 };LEN];
        let mut weight_current = [Q15 { bits: 0 };LEN];
        let mut weight_next = [Q15 { bits: 0 };LEN];
        let ghost p0 = self.phase;
        let ghost inc = self.phase_increment;
        let ghost table = *self.wavetable.0;
        let mut i: usize = 0;
        while i < LEN
            invariant
                i <= LEN,
                sample_current@.len() == LEN,
                sample_next@.len() == LEN,
                weight_next@.len() == LEN,
                self.phase == phase_after(p0, inc, i as nat),
                self.phase_increment == inc,
                *self.wavetable.0 == table,
                forall|j: int|
                    0 <= j < i ==> (#[trigger] sample_current@[j]).bits == table@[phase_index(
                        phase_after(p0, inc, j as nat),
                    )],
                forall|j: int|
                    0 <= j < i ==> (#[trigger] sample_next@[j]).bits == table@[(phase_index(
                        phase_after(p0, inc, j as nat),
                    ) + 1) % 256],
                forall|j: int|
                    0 <= j < i ==> (#[trigger] weight_next@[j]).bits == phase_weight(
                        phase_after(p0, inc, j as nat),
                    ) && 0 <= weight_next@[j].bits < 0x8000,
            decreases LEN - i,
        {
            let index: u8 = u8f24_integer_part(self.phase);
            sample_current[i] = Q15 { bits: self.wavetable.0[index as usize] };
            let next_index: u8 = index.wrapping_add(1);
            sample_next[i] = Q15 { bits: self.wavetable.0[next_index as usize] };
            let weight: u32 = (self.phase / 0x200) % 0x8000;
            assert(index as int == phase_index(self.phase));
            assert(next_index as int == (phase_index(self.phase) + 1) % 256);
            assert(weight as int == phase_weight(self.phase));
            weight_next[i] = Q15 { bits: weight as i16 };
            self.phase = u8f24_wrapping_add(self.phase, self.phase_increment);
            i = i + 1;
        }
        // weight_current = MAX - weight_next
        T::negate_q15(&weight_next, buffer);
        let max_array = [Q15 { bits: 0x7fff };LEN];
        T::add_q15(buffer, &max_array, &mut weight_current);
        // output = current × weight_current + next × weight_next
        let current_copy = sample_current;
        T::multiply_q15(&current_copy, &weight_current, &mut sample_current);
        let next_copy = sample_next;
        T::multiply_q15(&next_copy, &weight_next, &mut sample_next);
        T::add_q15(&sample_current, &sample_next, buffer);
    }

    /// Starts `note` from phase zero.
    pub fn set_note(&mut self, note: &Note)
        requires
            note.0 < 128,
        ensures
            *final(self) == with_note(*old(self), note.0),
    {
        self.phase = 0;
        self.phase_increment = MIDI_TO_PHASE_INCREMENT[note.as_u8() as usize];
    }

    /// Swaps the waveform, keeping the phase so the output stays continuous.
    pub fn set_wavetable(&mut self, wavetable: &'a [i16; 256])
        ensures
            final(self).phase == old(self).phase,
            final(self).phase_increment == old(self).phase_increment,
            *final(self).wavetable.0 == *wavetable,
    {
        self.wavetable = Wavetable(wavetable);
    }
}

} // verus!
