//! The per-cycle renderer: event intake, the pending-note queue, voice
//! rendering and mixing, and the optional filter pass.
use crate::adsr::{adsr_after, adsr_sample, lemma_adsr_after_wf};
use crate::config::Config;
use crate::fixed_point::{clamp16, q15_mul_spec, Q15};
use crate::kernel::{shift_spec, CmsisOperations};
use crate::midi::{event_in_range, MidiEvent};
use crate::octave_filter::{mixed_bands, OctaveFilterBank};
use crate::voice_bank::{
    bank_wf, is_active, lemma_bank_wf_kept, play_spec, quick_release_count, quick_release_spec,
    release_spec, Note, PlayNoteResult, Velocity, Voice, VoiceBank,
};
use crate::tables::{SAW_WAVETABLE, SINE_WAVETABLE, SQUARE_WAVETABLE, TRIANGLE_WAVETABLE};
use crate::wavetable::{interpolated, phase_after, WavetableOscillator};
use std::collections::VecDeque;
use vstd::arithmetic::power2::{lemma2_to64, lemma_pow2_unfold, pow2};
use vstd::prelude::*;

verus! {

/// The number of samples per render cycle used by the examples and tests.
pub const WINDOW_SIZE: usize = 128;

/// The sample rate, in Hz, that the phase-increment table assumes.
pub const SAMPLE_RATE: u32 = 48000;

/// A note waiting for a voice.
#[derive(Clone, Copy, Debug, PartialEq, Eq, Structural)]
pub struct PendingNote {
    pub note: Note,
    pub velocity: Velocity,
}

/// Whether `key` is queued.
pub open spec fn is_queued(q: Seq<PendingNote>, key: u8) -> bool {
    exists|i: int| 0 <= i < q.len() && (#[trigger] q[i]).note.0 == key
}

/// The queue without the entries for `key`, order kept.
pub open spec fn without_key(q: Seq<PendingNote>, key: u8) -> Seq<PendingNote>
    decreases q.len(),
{
    if q.len() == 0 {
        q
    } else if q.last().note.0 == key {
        without_key(q.drop_last(), key)
    } else {
        without_key(q.drop_last(), key).push(q.last())
    }
}

/// Voices and queue after taking in `events` in order: a NoteOff releases the
/// key's voices and drops it from the queue; a NoteOn queues the key unless it
/// is already queued or the queue holds `capacity` notes.
pub open spec fn intake<'a>(
    s: Seq<Voice<'a>>,
    q: Seq<PendingNote>,
    events: Seq<MidiEvent>,
    capacity: int,
) -> (Seq<Voice<'a>>, Seq<PendingNote>)
    decreases events.len(),
{
    if events.len() == 0 {
        (s, q)
    } else {
        let prev = intake(s, q, events.drop_last(), capacity);
        match events.last() {
            MidiEvent::NoteOff { key, vel } => (
                release_spec(prev.0, Note(key)),
                without_key(prev.1, key),
            ),
            MidiEvent::NoteOn { key, vel } => (
                prev.0,
                if is_queued(prev.1, key) || prev.1.len() >= capacity {
                    prev.1
                } else {
                    prev.1.push(PendingNote { note: Note(key), velocity: Velocity(vel) })
                },
            ),
        }
    }
}

proof fn lemma_intake_step<'a>(
    s: Seq<Voice<'a>>,
    q: Seq<PendingNote>,
    events: Seq<MidiEvent>,
    e: MidiEvent,
    capacity: int,
)
    ensures
        intake(s, q, events.push(e), capacity) == ({
            let p = intake(s, q, events, capacity);
            intake(p.0, p.1, seq![e], capacity)
        }),
{
    assert(events.push(e).drop_last() == events);
    assert(seq![e].drop_last() =~= Seq::<MidiEvent>::empty());
    let p = intake(s, q, events, capacity);
    assert(intake(p.0, p.1, seq![e].drop_last(), capacity) == p);
}

/// Voices, counter and queue after draining the queue: the front note is
/// played while that succeeds; at the first note for which all voices are busy,
/// one voice is quick-released if more notes are queued than voices are already
/// in QuickRelease, and draining stops.
pub open spec fn drain<'a>(s: Seq<Voice<'a>>, counter: u32, q: Seq<PendingNote>) -> (
    Seq<Voice<'a>>,
    u32,
    Seq<PendingNote>,
)
    decreases q.len(),
{
    if q.len() == 0 {
        (s, counter, q)
    } else {
        let p = play_spec(s, counter, q[0].note, q[0].velocity, true);
        if p.2 == PlayNoteResult::Success {
            drain(p.0, p.1, q.drop_first())
        } else if q.len() > quick_release_count(s, s.len() as int) {
            (quick_release_spec(s), counter, q)
        } else {
            (s, counter, q)
        }
    }
}

/// The smallest `k` from `from` on with `2^k >= n`, at most 15.
pub open spec fn headroom_from(n: int, from: nat) -> nat
    decreases 15 - from,
{
    if from >= 15 || pow2(from) >= n {
        from
    } else {
        headroom_from(n, from + 1)
    }
}

/// The right shift that keeps a sum of `n` full-scale voices from clipping:
/// `ceil(log2(n))` bits.
pub open spec fn headroom_bits(n: int) -> nat {
    headroom_from(n, 0)
}

/// Sample `j` of an active voice in this cycle: oscillator times envelope
/// (the envelope already carries the velocity), shifted right by the headroom.
pub open spec fn voice_sample(v: Voice, j: int, shift: int) -> int {
    let o = interpolated(
        *v.wavetable_osc.wavetable.0,
        phase_after(v.wavetable_osc.phase, v.wavetable_osc.phase_increment, j as nat),
    );
    let e = adsr_sample(v.adsr, j as nat);
    shift_spec(q15_mul_spec(o, e), -shift)
}

/// An active voice after rendering `w` samples.
pub open spec fn rendered<'a>(v: Voice<'a>, w: nat) -> Voice<'a> {
    Voice {
        adsr: adsr_after(v.adsr, w),
        wavetable_osc: WavetableOscillator {
            phase: phase_after(v.wavetable_osc.phase, v.wavetable_osc.phase_increment, w),
            ..v.wavetable_osc
        },
        ..v
    }
}

/// The voices after rendering `w` samples: active voices advance, idle ones stay.
pub open spec fn voices_rendered<'a>(s: Seq<Voice<'a>>, w: nat) -> Seq<Voice<'a>> {
    Seq::new(s.len(), |i: int| if is_active(s[i]) { rendered(s[i], w) } else { s[i] })
}

/// Sample `j` of the saturating mix of the first `n` voices.
pub open spec fn mix(s: Seq<Voice>, n: int, j: int, shift: int) -> int
    decreases n,
{
    if n <= 0 {
        0
    } else {
        clamp16(
            mix(s, n - 1, j, shift) + if is_active(s[n - 1]) {
                voice_sample(s[n - 1], j, shift)
            } else {
                0
            },
        )
    }
}

/// The mixed window of `w` samples, before the filter.
pub open spec fn mixed_window(s: Seq<Voice>, w: int, shift: int) -> Seq<Q15> {
    Seq::new(w as nat, |j: int| Q15 { bits: mix(s, s.len() as int, j, shift) as i16 })
}

/// The built-in waveform for an oscillator type, modulo 4: sine, sawtooth,
/// square, triangle.
pub open spec fn waveform_of(kind: u8) -> [i16; 256] {
    let k = kind % 4;
    if k == 0 {
        SINE_WAVETABLE
    } else if k == 1 {
        SAW_WAVETABLE
    } else if k == 2 {
        SQUARE_WAVETABLE
    } else {
        TRIANGLE_WAVETABLE
    }
}

/// The built-in waveform for an oscillator type, modulo 4.
pub fn select_wavetable(kind: u8) -> (r: &'static [i16; 256])
    ensures
        *r == waveform_of(kind),
{
    let k = kind % 4;
    if k == 0 {
        &SINE_WAVETABLE
    } else if k == 1 {
        &SAW_WAVETABLE
    } else if k == 2 {
        &SQUARE_WAVETABLE
    } else {
        &TRIANGLE_WAVETABLE
    }
}

/// Whether `w` is voice `v` with the given envelope settings and waveform applied.
pub open spec fn configured(
    v: Voice,
    w: Voice,
    sustain: u8,
    attack: u8,
    decay_release: u8,
    kind: u8,
) -> bool {
    &&& w.timestamp == v.timestamp
    &&& w.note == v.note
    &&& w.velocity == v.velocity
    &&& w.adsr.stage == v.adsr.stage
    &&& w.adsr.config == crate::adsr::ADSRConfig {
        sustain_level: crate::adsr::amplitude_of(sustain),
        rise_base_and_coefficient: crate::adsr::rise_pair(attack),
        fall_base_and_coefficient: crate::adsr::fall_pair(decay_release),
        ..v.adsr.config
    }
    &&& w.adsr.capacitor == crate::capacitor::Capacitor {
        rise_coeff: crate::adsr::rise_pair(attack),
        fall_coeff: crate::adsr::fall_pair(decay_release),
        ..v.adsr.capacitor
    }
    &&& w.wavetable_osc.phase == v.wavetable_osc.phase
    &&& w.wavetable_osc.phase_increment == v.wavetable_osc.phase_increment
    &&& *w.wavetable_osc.wavetable.0 == waveform_of(kind)
}

/// The synthesis engine: `VOICE_BANK_SIZE` voices, a queue of notes waiting for
/// a voice, and an optional octave filter; it renders `WINDOW_SIZE` samples per cycle.
pub struct SynthEngine<'wt, const VOICE_BANK_SIZE: usize, const WINDOW_SIZE: usize> {
    pub voice_bank: VoiceBank<'wt, VOICE_BANK_SIZE>,
    pub note_queue: VecDeque<PendingNote>,
    pub octave_filter: Option<OctaveFilterBank>,
}

impl<'wt, const VOICE_BANK_SIZE: usize, const WINDOW_SIZE: usize> SynthEngine<
    'wt,
    VOICE_BANK_SIZE,
    WINDOW_SIZE,
> {
    /// The engine's invariant: a pool of 1 to 2^15 well-formed voices, a queue
    /// of at most one note per voice with MIDI-range notes, and a well-formed filter.
    pub open spec fn wf(&self) -> bool {
        &&& 1 <= VOICE_BANK_SIZE <= 0x8000
        &&& bank_wf(self.voice_bank.voices@)
        &&& self.note_queue@.len() <= VOICE_BANK_SIZE
        &&& forall|i: int|
            0 <= i < self.note_queue@.len() ==> (#[trigger] self.note_queue@[i]).note.0 < 128
                && self.note_queue@[i].velocity.0 < 128
        &&& match self.octave_filter {
            Some(f) => f.wf(),
            None => true,
        }
    }

    /// An engine with `VOICE_BANK_SIZE` idle voices on `wavetable`, an empty
    /// queue and no filter.
    pub fn new(
        wavetable: &'wt [i16; 256],
        sustain_config: u8,
        attack_config: u8,
        decay_release_config: u8,
    ) -> (r: Self)
        requires
            1 <= VOICE_BANK_SIZE <= 0x8000,
        ensures
            r.wf(),
            r.note_queue@.len() == 0,
            r.octave_filter.is_none(),
            r.voice_bank.timestamp_counter == 0,
            forall|i: int|
                0 <= i < VOICE_BANK_SIZE ==> {
                    let v = #[trigger] r.voice_bank.voices@[i];
                    &&& v.timestamp == 0
                    &&& v.note == Note(0)
                    &&& v.velocity == Velocity(0)
                    &&& v.adsr == crate::adsr::adsr_initial(
                        sustain_config,
                        attack_config,
                        decay_release_config,
                        0,
                    )
                    &&& v.wavetable_osc.phase == 0
                    &&& v.wavetable_osc.phase_increment == 0
                    &&& *v.wavetable_osc.wavetable.0 == *wavetable
                },
    {
        let voice_bank = VoiceBank::new(
            wavetable,
            sustain_config,
            attack_config,
            decay_release_config,
        );
        proof {
            crate::adsr::lemma_rise_table_shaped(attack_config);
            crate::adsr::lemma_fall_table_shaped(decay_release_config);
            crate::adsr::lemma_amplitude_nonneg(sustain_config);
            crate::adsr::lemma_amplitude_nonneg(0);
        }
        SynthEngine {
            voice_bank,
            note_queue: VecDeque::with_capacity(VOICE_BANK_SIZE),
            octave_filter: None,
        }
    }

    /// Turns on the octave filter, with its default settings.
    pub fn enable_octave_filter(&mut self)
        requires
            old(self).wf(),
        ensures
            final(self).wf(),
            final(self).voice_bank == old(self).voice_bank,
            final(self).note_queue@ == old(self).note_queue@,
            final(self).octave_filter.is_some(),
    {
        self.octave_filter = Some(OctaveFilterBank::new());
    }

    /// The voice bank.
    pub fn get_voice_bank(&self) -> (r: &VoiceBank<'wt, VOICE_BANK_SIZE>)
        ensures
            *r == self.voice_bank,
    {
        &self.voice_bank
    }

    /// The number of notes waiting for a voice.
    pub fn queued_notes(&self) -> (r: usize)
        ensures
            r == self.note_queue@.len(),
    {
        self.note_queue.len()
    }

    /// The headroom shift for this engine's voice count.
    fn voice_shift() -> (r: u32)
        requires
            1 <= VOICE_BANK_SIZE <= 0x8000,
        ensures
            r == headroom_bits(VOICE_BANK_SIZE as int),
            r <= 15,
    {
        let mut k: u32 = 0;
        let mut p: usize = 1;
        proof {
            lemma2_to64();
        }
        while k < 15 && p < VOICE_BANK_SIZE
            invariant
                k <= 15,
                p == pow2(k as nat),
                p <= 0x8000,
                headroom_bits(VOICE_BANK_SIZE as int) == headroom_from(VOICE_BANK_SIZE as int, k as nat),
                1 <= VOICE_BANK_SIZE <= 0x8000,
            decreases 15 - k,
        {
            proof {
                lemma_pow2_unfold((k + 1) as nat);
                if k < 14 {
                    vstd::arithmetic::power2::lemma_pow2_strictly_increases(k as nat, 14);
                }
                assert(pow2(14) == 0x4000) by {
                    lemma2_to64();
                }
            }
            p = p * 2;
            k = k + 1;
        }
        k
    }

    /// Drops every queued entry for `key`.
    fn remove_queued(&mut self, key: u8)
        requires
            old(self).wf(),
        ensures
            final(self).wf(),
            final(self).voice_bank == old(self).voice_bank,
            final(self).octave_filter == old(self).octave_filter,
            final(self).note_queue@ == without_key(old(self).note_queue@, key),
    {
        let ghost q = self.note_queue@;
        let n = self.note_queue.len();
        let mut j: usize = 0;
        while j < n
            invariant
                j <= n,
                n == q.len(),
                q == old(self).note_queue@,
                q.len() <= VOICE_BANK_SIZE,
                self.voice_bank == old(self).voice_bank,
                self.octave_filter == old(self).octave_filter,
                self.note_queue@ == q.subrange(j as int, n as int) + without_key(
                    q.take(j as int),
                    key,
                ),
                without_key(q.take(j as int), key).len() <= j,
                forall|i: int|
                    0 <= i < q.len() ==> (#[trigger] q[i]).note.0 < 128 && q[i].velocity.0 < 128,
                forall|i: int|
                    0 <= i < self.note_queue@.len() ==> (#[trigger] self.note_queue@[i]).note.0
                        < 128 && self.note_queue@[i].velocity.0 < 128,
            decreases n - j,
        {
            let ghost before = self.note_queue@;
            let front = self.note_queue.pop_front();
            proof {
                assert(q.take(j + 1).drop_last() == q.take(j as int));
                assert(before[0] == q[j as int]);
            }
            match front {
                Some(p) => {
                    if p.note.0 != key {
                        self.note_queue.push_back(p);
                    }
                },
                None => {},
            }
            proof {
                let w = without_key(q.take(j as int), key);
                assert(self.note_queue@ =~= q.subrange(j + 1, n as int) + without_key(
                    q.take(j + 1),
                    key,
                ));
            }
            j = j + 1;
        }
        proof {
            assert(q.take(n as int) == q);
            assert(self.note_queue@ =~= without_key(q, key));
        }
    }

    /// Whether `key` is queued.
    fn is_key_queued(&self, key: u8) -> (r: bool)
        ensures
            r == is_queued(self.note_queue@, key),
    {
        let n = self.note_queue.len();
        let mut j: usize = 0;
        while j < n
            invariant
                j <= n,
                n == self.note_queue@.len(),
                forall|i: int| 0 <= i < j ==> (#[trigger] self.note_queue@[i]).note.0 != key,
            decreases n - j,
        {
            if self.note_queue[j].note.0 == key {
                return true;
            }
            j = j + 1;
        }
        false
    }

    /// Takes in one event.
    fn take_event(&mut self, event: MidiEvent)
        requires
            old(self).wf(),
            event_in_range(event),
        ensures
            final(self).wf(),
            final(self).octave_filter == old(self).octave_filter,
            final(self).voice_bank.timestamp_counter == old(self).voice_bank.timestamp_counter,
            ({
                let r = intake(
                    old(self).voice_bank.voices@,
                    old(self).note_queue@,
                    seq![event],
                    VOICE_BANK_SIZE as int,
                );
                final(self).voice_bank.voices@ == r.0 && final(self).note_queue@ == r.1
            }),
    {
        proof {
            assert(seq![event].drop_last() =~= Seq::<MidiEvent>::empty());
            assert(intake(
                self.voice_bank.voices@,
                self.note_queue@,
                seq![event].drop_last(),
                VOICE_BANK_SIZE as int,
            ) == (self.voice_bank.voices@, self.note_queue@));
        }
        match event {
            MidiEvent::NoteOff { key, vel: _ } => {
                proof {
                    lemma_bank_wf_kept(self.voice_bank.voices@, 0, Note(key), Velocity(0));
                }
                self.voice_bank.release_note(Note(key));
                self.remove_queued(key);
            },
            MidiEvent::NoteOn { key, vel } => {
                if !self.is_key_queued(key) && self.note_queue.len() < VOICE_BANK_SIZE {
                    self.note_queue.push_back(
                        PendingNote { note: Note(key), velocity: Velocity(vel) },
                    );
                }
            },
        }
    }

    /// Takes in `events` in order.
    fn take_events(&mut self, events: &[MidiEvent])
        requires
            old(self).wf(),
            forall|i: int| 0 <= i < events@.len() ==> event_in_range(#[trigger] events@[i]),
        ensures
            final(self).wf(),
            final(self).octave_filter == old(self).octave_filter,
            final(self).voice_bank.timestamp_counter == old(self).voice_bank.timestamp_counter,
            ({
                let r = intake(
                    old(self).voice_bank.voices@,
                    old(self).note_queue@,
                    events@,
                    VOICE_BANK_SIZE as int,
                );
                final(self).voice_bank.voices@ == r.0 && final(self).note_queue@ == r.1
            }),
    {
        let ghost s0 = self.voice_bank.voices@;
        let ghost q0 = self.note_queue@;
        let n = events.len();
        let mut i: usize = 0;
        while i < n
            invariant
                i <= n,
                n == events@.len(),
                self.wf(),
                forall|k: int| 0 <= k < events@.len() ==> event_in_range(#[trigger] events@[k]),
                self.octave_filter == old(self).octave_filter,
                self.voice_bank.timestamp_counter == old(self).voice_bank.timestamp_counter,
                s0 == old(self).voice_bank.voices@,
                q0 == old(self).note_queue@,
                ({
                    let r = intake(s0, q0, events@.take(i as int), VOICE_BANK_SIZE as int);
                    self.voice_bank.voices@ == r.0 && self.note_queue@ == r.1
                }),
            decreases n - i,
        {
            let event = events[i];
            self.take_event(event);
            proof {
                assert(events@.take(i + 1) == events@.take(i as int).push(event));
                lemma_intake_step(s0, q0, events@.take(i as int), event, VOICE_BANK_SIZE as int);
            }
            i = i + 1;
        }
        proof {
            assert(events@.take(n as int) == events@);
        }
    }

    /// Drains the pending-note queue into the voice bank.
    fn drain_queue(&mut self)
        requires
            old(self).wf(),
        ensures
            final(self).wf(),
            final(self).octave_filter == old(self).octave_filter,
            ({
                let r = drain(
                    old(self).voice_bank.voices@,
                    old(self).voice_bank.timestamp_counter,
                    old(self).note_queue@,
                );
                final(self).voice_bank.voices@ == r.0 && final(self).voice_bank.timestamp_counter
                    == r.1 && final(self).note_queue@ == r.2
            }),
    {
        let ghost target = drain(
            self.voice_bank.voices@,
            self.voice_bank.timestamp_counter,
            self.note_queue@,
        );
        let mut done = false;
        while !done && self.note_queue.len() > 0
            invariant
                self.wf(),
                self.octave_filter == old(self).octave_filter,
                target == if done {
                    (self.voice_bank.voices@, self.voice_bank.timestamp_counter, self.note_queue@)
                } else {
                    drain(
                        self.voice_bank.voices@,
                        self.voice_bank.timestamp_counter,
                        self.note_queue@,
                    )
                },
            decreases self.note_queue@.len() + if done {
                0int
            } else {
                1int
            },
        {
            let pending = self.note_queue[0];
            proof {
                lemma_bank_wf_kept(
                    self.voice_bank.voices@,
                    self.voice_bank.timestamp_counter,
                    pending.note,
                    pending.velocity,
                );
            }
            let result = self.voice_bank.play_note(pending.note, pending.velocity);
            match result {
                PlayNoteResult::Success => {
                    let _ = self.note_queue.pop_front();
                },
                PlayNoteResult::AllVoicesBusy => {
                    let queue_count = self.note_queue.len();
                    let quick_release_count = self.voice_bank.count_voices_in_quick_release();
                    if queue_count > quick_release_count {
                        self.voice_bank.quick_release();
                    }
                    done = true;
                },
            }
        }
    }

    /// Renders one cycle: takes in `events`, drains the pending-note queue,
    /// mixes every sounding voice (oscillator × envelope, shifted
    /// right by `ceil(log2(VOICE_BANK_SIZE))` bits, summed with saturation),
    /// passes the mix through the octave filter when it is on, and writes the
    /// `WINDOW_SIZE` samples to `sample_buffer`.
    pub fn render_samples<T: CmsisOperations>(
        &mut self,
        events: &[MidiEvent],
        sample_buffer: &mut [Q15],
    )
        requires
            old(self).wf(),
            old(sample_buffer)@.len() == WINDOW_SIZE,
            forall|i: int| 0 <= i < events@.len() ==> event_in_range(#[trigger] events@[i]),
        ensures
            final(self).wf(),
            final(sample_buffer)@.len() == WINDOW_SIZE,
            ({
                let taken = intake(
                    old(self).voice_bank.voices@,
                    old(self).note_queue@,
                    events@,
                    VOICE_BANK_SIZE as int,
                );
                let drained = drain(taken.0, old(self).voice_bank.timestamp_counter, taken.1);
                let window = mixed_window(
                    drained.0,
                    WINDOW_SIZE as int,
                    headroom_bits(VOICE_BANK_SIZE as int) as int,
                );
                &&& final(self).voice_bank.voices@ == voices_rendered(
                    drained.0,
                    WINDOW_SIZE as nat,
                )
                &&& final(self).voice_bank.timestamp_counter == drained.1
                &&& final(self).note_queue@ == drained.2
                &&& match old(self).octave_filter {
                    None => {
                        &&& final(self).octave_filter.is_none()
                        &&& final(sample_buffer)@ == window
                    },
                    Some(f) => {
                        &&& final(self).octave_filter.is_some()
                        &&& final(self).octave_filter.unwrap().band_gains == f.band_gains
                        &&& forall|b: int|
                            0 <= b < 6 ==> #[trigger] final(self).octave_filter.unwrap().states@[b]
                                == crate::kernel::biquad_state_after(
                                f.states@[b],
                                crate::octave_filter::band_coefficients(b),
                                1,
                                window,
                            )
                        &&& forall|j: int|
                            0 <= j < WINDOW_SIZE ==> (#[trigger] final(sample_buffer)@[j]).bits
                                == mixed_bands(f.states@, f.band_gains@, window, 6, j)
                    },
                }
            }),
    {
        self.take_events(events);
        self.drain_queue();
        let shift = Self::voice_shift();
        let neg_shift: i8 = -(shift as i8);
        let mut acc = [Q15 { bits: 0 };WINDOW_SIZE];
        let ghost s2 = self.voice_bank.voices@;
        let ghost c2 = self.voice_bank.timestamp_counter;
        let ghost q2 = self.note_queue@;
        let mut i: usize = 0;
        while i < VOICE_BANK_SIZE
            invariant
                i <= VOICE_BANK_SIZE,
                s2.len() == VOICE_BANK_SIZE,
                bank_wf(s2),
                shift == headroom_bits(VOICE_BANK_SIZE as int),
                shift <= 15,
                neg_shift == -shift,
                self.voice_bank.timestamp_counter == c2,
                self.note_queue@ == q2,
                self.octave_filter == old(self).octave_filter,
                q2.len() <= VOICE_BANK_SIZE,
                forall|k: int|
                    0 <= k < q2.len() ==> (#[trigger] q2[k]).note.0 < 128 && q2[k].velocity.0 < 128,
                match self.octave_filter {
                    Some(f) => f.wf(),
                    None => true,
                },
                1 <= VOICE_BANK_SIZE <= 0x8000,
                forall|k: int|
                    0 <= k < i ==> #[trigger] self.voice_bank.voices@[k] == voices_rendered(
                        s2,
                        WINDOW_SIZE as nat,
                    )[k],
                forall|k: int|
                    i <= k < VOICE_BANK_SIZE ==> #[trigger] self.voice_bank.voices@[k] == s2[k],
                forall|j: int|
                    0 <= j < WINDOW_SIZE ==> (#[trigger] acc@[j]).bits == mix(
                        s2,
                        i as int,
                        j,
                        shift as int,
                    ),
            decreases VOICE_BANK_SIZE - i,
        {
            let mut v = self.voice_bank.voices[i];
            if !v.adsr.is_idle() {
                let ghost v0 = v;
                let mut wavetable_buf = [Q15 { bits: 0 };WINDOW_SIZE];
                let mut envelope_buf = [Q15 { bits: 0 };WINDOW_SIZE];
                let mut mixed_buf = [Q15 { bits: 0 };WINDOW_SIZE];
                v.wavetable_osc.get_samples::<T, WINDOW_SIZE>(&mut wavetable_buf);
                v.adsr.get_samples(&mut envelope_buf);
                proof {
                    assert forall|j: int| 0 <= j < WINDOW_SIZE implies envelope_buf@[j].bits >= 0 by {
                        lemma_adsr_after_wf(v0.adsr, j as nat);
                    }
                    lemma_adsr_after_wf(v0.adsr, WINDOW_SIZE as nat);
                }
                T::multiply_q15(&wavetable_buf, &envelope_buf, &mut mixed_buf);
                T::shift_in_place_q15(&mut mixed_buf, neg_shift);
                let previous = acc;
                T::add_q15(&previous, &mixed_buf, &mut acc);
                self.voice_bank.voices[i] = v;
                proof {
                    assert(v == crate::engine::rendered(v0, WINDOW_SIZE as nat));
                }
            }
            i = i + 1;
        }
        proof {
            assert(self.voice_bank.voices@ =~= voices_rendered(s2, WINDOW_SIZE as nat));
            assert forall|k: int| 0 <= k < VOICE_BANK_SIZE implies #[trigger] self.voice_bank.voices@[k].velocity.0 < 128
                && crate::adsr::adsr_wf(self.voice_bank.voices@[k].adsr) by {
                lemma_adsr_after_wf(s2[k].adsr, WINDOW_SIZE as nat);
            }
        }
        let ghost window = mixed_window(s2, WINDOW_SIZE as int, shift as int);
        proof {
            assert(acc@ =~= window);
        }
        let filter = self.octave_filter;
        match filter {
            Some(f0) => {
                let mut f = f0;
                let mut out = [Q15 { bits: 0 };WINDOW_SIZE];
                f.process::<T, WINDOW_SIZE>(&acc, &mut out);
                self.octave_filter = Some(f);
                let mut j: usize = 0;
                while j < WINDOW_SIZE
                    invariant
                        j <= WINDOW_SIZE,
                        sample_buffer@.len() == WINDOW_SIZE,
                        forall|k: int| 0 <= k < j ==> sample_buffer@[k] == out@[k],
                    decreases WINDOW_SIZE - j,
                {
                    sample_buffer[j] = out[j];
                    j = j + 1;
                }
            },
            None => {
                let mut j: usize = 0;
                while j < WINDOW_SIZE
                    invariant
                        j <= WINDOW_SIZE,
                        sample_buffer@.len() == WINDOW_SIZE,
                        forall|k: int| 0 <= k < j ==> sample_buffer@[k] == acc@[k],
                    decreases WINDOW_SIZE - j,
                {
                    sample_buffer[j] = acc[j];
                    j = j + 1;
                }
                proof {
                    assert(sample_buffer@ =~= window);
                }
            },
        }
    }

    /// Applies a configuration snapshot: page 0 holds attack, sustain and
    /// decay/release, page 1 the oscillator type (modulo 4); when the filter is
    /// on and there are at least four pages, pages 2 and 3 hold the six band gains.
    pub fn apply_config<const PAGE_AMOUNT: usize, const ENCODER_AMOUNT: usize>(
        &mut self,
        config: &Config<PAGE_AMOUNT, ENCODER_AMOUNT>,
    )
        requires
            old(self).wf(),
            PAGE_AMOUNT >= 2,
            ENCODER_AMOUNT >= 3,
        ensures
            final(self).wf(),
            final(self).note_queue@ == old(self).note_queue@,
            final(self).voice_bank.timestamp_counter == old(self).voice_bank.timestamp_counter,
            forall|i: int|
                0 <= i < VOICE_BANK_SIZE ==> configured(
                    old(self).voice_bank.voices@[i],
                    #[trigger] final(self).voice_bank.voices@[i],
                    config.pages@[0].values@[1],
                    config.pages@[0].values@[0],
                    config.pages@[0].values@[2],
                    config.pages@[1].values@[0],
                ),
            match old(self).octave_filter {
                None => final(self).octave_filter.is_none(),
                Some(f) => {
                    &&& final(self).octave_filter.is_some()
                    &&& final(self).octave_filter.unwrap().states == f.states
                    &&& PAGE_AMOUNT < 4 ==> final(self).octave_filter.unwrap().band_gains
                        == f.band_gains
                    &&& PAGE_AMOUNT >= 4 ==> forall|b: int|
                        0 <= b < 6 ==> (
                        #[trigger] final(self).octave_filter.unwrap().band_gains@[b]).bits
                            == crate::octave_filter::gain_of(
                            config.pages@[2 + b / 3].values@[b % 3],
                        )
                },
            },
    {
        let attack = config.pages[0].values[0];
        let sustain = config.pages[0].values[1];
        let decay_release = config.pages[0].values[2];
        let kind = config.pages[1].values[0];
        let table = select_wavetable(kind);
        proof {
            crate::adsr::lemma_rise_table_shaped(attack);
            crate::adsr::lemma_fall_table_shaped(decay_release);
            crate::adsr::lemma_amplitude_nonneg(sustain);
        }
        let mut i: usize = 0;
        while i < VOICE_BANK_SIZE
            invariant
                i <= VOICE_BANK_SIZE,
                1 <= VOICE_BANK_SIZE <= 0x8000,
                bank_wf(self.voice_bank.voices@),
                self.note_queue@ == old(self).note_queue@,
                self.voice_bank.timestamp_counter == old(self).voice_bank.timestamp_counter,
                self.octave_filter == old(self).octave_filter,
                attack == config.pages@[0].values@[0],
                sustain == config.pages@[0].values@[1],
                decay_release == config.pages@[0].values@[2],
                kind == config.pages@[1].values@[0],
                *table == waveform_of(kind),
                crate::adsr::rise_shaped(crate::adsr::rise_pair(attack)),
                crate::adsr::fall_shaped(crate::adsr::fall_pair(decay_release)),
                crate::adsr::amplitude_of(sustain) >= 0,
                forall|k: int|
                    0 <= k < i ==> configured(
                        old(self).voice_bank.voices@[k],
                        #[trigger] self.voice_bank.voices@[k],
                        sustain,
                        attack,
                        decay_release,
                        kind,
                    ),
                forall|k: int|
                    i <= k < VOICE_BANK_SIZE ==> #[trigger] self.voice_bank.voices@[k]
                        == old(self).voice_bank.voices@[k],
            decreases VOICE_BANK_SIZE - i,
        {
            let mut v = self.voice_bank.voices[i];
            v.adsr.set_attack(attack);
            v.adsr.set_sustain(sustain);
            v.adsr.set_decay_release(decay_release);
            v.wavetable_osc.set_wavetable(table);
            self.voice_bank.voices[i] = v;
            i = i + 1;
        }
        if PAGE_AMOUNT >= 4 {
            let filter = self.octave_filter;
            match filter {
                Some(f0) => {
                    let mut f = f0;
                    let mut b: usize = 0;
                    while b < 6
                        invariant
                            b <= 6,
                            PAGE_AMOUNT >= 4,
                            ENCODER_AMOUNT >= 3,
                            f.wf(),
                            f.states == f0.states,
                            forall|k: int|
                                0 <= k < b ==> (#[trigger] f.band_gains@[k]).bits
                                    == crate::octave_filter::gain_of(
                                    config.pages@[2 + k / 3].values@[k % 3],
                                ),
                        decreases 6 - b,
                    {
                        let value = config.pages[2 + b / 3].values[b % 3];
                        f.set_band_gain(b, value);
                        b = b + 1;
                    }
                    self.octave_filter = Some(f);
                },
                None => {},
            }
        }
    }
}

} // verus!
