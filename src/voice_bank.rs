//! A fixed pool of voices: allocation, retrigger, release and the choice of a
//! voice to quick-release.
use crate::adsr::{
    adsr_initial, adsr_played, adsr_quick_released, adsr_retriggered, adsr_stopped, ADSRStage, ADSR,
};
use crate::midi::{event_in_range, MidiEvent};
use crate::wavetable::{with_note, WavetableOscillator};
use vstd::prelude::*;

verus! {

/// A MIDI note number (0-127).
#[derive(Clone, Copy, Debug, PartialEq, Eq, PartialOrd, Ord, Structural)]
pub struct Note(pub u8);

impl Note {
    /// The note with the given number.
    pub fn new(value: u8) -> (r: Note)
        ensures
            r.0 == value,
    {
        Note(value)
    }

    /// The note's number.
    pub fn as_u8(self) -> (r: u8)
        ensures
            r == self.0,
    {
        self.0
    }
}

/// A MIDI velocity (0-127).
#[derive(Clone, Copy, Debug, PartialEq, Eq, PartialOrd, Ord, Structural)]
pub struct Velocity(pub u8);

impl Velocity {
    /// The velocity with the given value.
    pub fn new(value: u8) -> (r: Velocity)
        ensures
            r.0 == value,
    {
        Velocity(value)
    }

    /// The velocity's value.
    pub fn as_u8(self) -> (r: u8)
        ensures
            r == self.0,
    {
        self.0
    }
}

impl From<u8> for Note {
    fn from(value: u8) -> (r: Note)
        ensures
            r.0 == value,
    {
        Note(value)
    }
}

impl vstd::std_specs::convert::FromSpecImpl<u8> for Note {
    open spec fn obeys_from_spec() -> bool {
        true
    }

    open spec fn from_spec(value: u8) -> Note {
        Note(value)
    }
}

impl From<Note> for u8 {
    fn from(note: Note) -> (r: u8)
        ensures
            r == note.0,
    {
        note.0
    }
}

impl vstd::std_specs::convert::FromSpecImpl<Note> for u8 {
    open spec fn obeys_from_spec() -> bool {
        true
    }

    open spec fn from_spec(note: Note) -> u8 {
        note.0
    }
}

impl From<u8> for Velocity {
    fn from(value: u8) -> (r: Velocity)
        ensures
            r.0 == value,
    {
        Velocity(value)
    }
}

impl vstd::std_specs::convert::FromSpecImpl<u8> for Velocity {
    open spec fn obeys_from_spec() -> bool {
        true
    }

    open spec fn from_spec(value: u8) -> Velocity {
        Velocity(value)
    }
}

impl From<Velocity> for u8 {
    fn from(velocity: Velocity) -> (r: u8)
        ensures
            r == velocity.0,
    {
        velocity.0
    }
}

impl vstd::std_specs::convert::FromSpecImpl<Velocity> for u8 {
    open spec fn obeys_from_spec() -> bool {
        true
    }

    open spec fn from_spec(velocity: Velocity) -> u8 {
        velocity.0
    }
}

/// Result of attempting to play a note.
#[derive(Clone, Copy, Debug, PartialEq, Eq, Structural)]
pub enum PlayNoteResult {
    /// The note was played, on a retriggered or a newly assigned voice.
    Success,
    /// No voice was free and none held the note; nothing changed.
    AllVoicesBusy,
}

/// Whether a voice is sounding.
#[derive(Clone, Copy, Debug, PartialEq, Eq, Structural)]
pub enum VoiceStage {
    Free,
    Held,
}

/// One voice: when it was last triggered, what it plays, and its envelope and oscillator.
#[derive(Clone, Copy, Debug)]
pub struct Voice<'a> {
    pub timestamp: u32,
    pub note: Note,
    pub velocity: Velocity,
    pub adsr: ADSR,
    pub wavetable_osc: WavetableOscillator<'a>,
}

/// Whether the voice is sounding (its envelope is not idle).
pub open spec fn is_active(v: Voice) -> bool {
    v.adsr.stage != ADSRStage::Idle
}

/// Whether the voice is sounding `note`.
pub open spec fn holds(v: Voice, note: Note) -> bool {
    v.note == note && is_active(v)
}

/// Whether the voice may be chosen by the oldest-voice rule of `quick_release`.
pub open spec fn is_stealable(v: Voice) -> bool {
    v.adsr.stage != ADSRStage::Idle && v.adsr.stage != ADSRStage::QuickRelease
}

/// The voice after a retrigger at `timestamp` with `velocity`.
pub open spec fn retriggered<'a>(v: Voice<'a>, timestamp: u32, velocity: Velocity) -> Voice<'a> {
    Voice { timestamp, velocity, adsr: adsr_retriggered(v.adsr, velocity.0), ..v }
}

/// The voice after a fresh play of `note` at `timestamp` with `velocity`.
pub open spec fn played<'a>(v: Voice<'a>, timestamp: u32, note: Note, velocity: Velocity) -> Voice<
    'a,
> {
    Voice {
        timestamp,
        note,
        velocity,
        adsr: adsr_played(v.adsr, velocity.0),
        wavetable_osc: with_note(v.wavetable_osc, note.0),
    }
}

/// The voice after `stop_playing` of its envelope.
pub open spec fn stopped<'a>(v: Voice<'a>) -> Voice<'a> {
    Voice { adsr: adsr_stopped(v.adsr), ..v }
}

/// The voice after `quick_release` of its envelope.
pub open spec fn quick_released<'a>(v: Voice<'a>) -> Voice<'a> {
    Voice { adsr: adsr_quick_released(v.adsr), ..v }
}

/// The first index at or after `i` of a voice holding `note`, or `s.len()`.
pub open spec fn first_holding(s: Seq<Voice>, note: Note, i: int) -> int
    decreases s.len() - i,
{
    if i >= s.len() || i < 0 {
        s.len() as int
    } else if holds(s[i], note) {
        i
    } else {
        first_holding(s, note, i + 1)
    }
}

/// The first index at or after `i` of an idle voice, or `s.len()`.
pub open spec fn first_idle(s: Seq<Voice>, i: int) -> int
    decreases s.len() - i,
{
    if i >= s.len() || i < 0 {
        s.len() as int
    } else if !is_active(s[i]) {
        i
    } else {
        first_idle(s, i + 1)
    }
}

/// Among the first `n` voices, the index of the quietest voice in Release
/// (the first of equally quiet ones), or -1 when none is in Release.
pub open spec fn quietest_release(s: Seq<Voice>, n: int) -> int
    decreases n,
{
    if n <= 0 {
        -1
    } else {
        let best = quietest_release(s, n - 1);
        if s[n - 1].adsr.stage == ADSRStage::Release && (best < 0
            || s[n - 1].adsr.capacitor.current < s[best].adsr.capacitor.current) {
            n - 1
        } else {
            best
        }
    }
}

/// Among the first `n` voices, the index of the stealable voice with the oldest
/// timestamp (the first of equally old ones), or -1 when none is stealable.
pub open spec fn oldest_stealable(s: Seq<Voice>, n: int) -> int
    decreases n,
{
    if n <= 0 {
        -1
    } else {
        let best = oldest_stealable(s, n - 1);
        if is_stealable(s[n - 1]) && (best < 0 || s[n - 1].timestamp < s[best].timestamp) {
            n - 1
        } else {
            best
        }
    }
}

/// The voice that `quick_release` picks, or -1 for none.
pub open spec fn quick_release_choice(s: Seq<Voice>) -> int {
    let q = quietest_release(s, s.len() as int);
    if q >= 0 {
        q
    } else {
        oldest_stealable(s, s.len() as int)
    }
}

proof fn lemma_quietest_release(s: Seq<Voice>, n: int)
    requires
        0 <= n <= s.len(),
    ensures
        -1 <= quietest_release(s, n) < n,
        quietest_release(s, n) >= 0 ==> s[quietest_release(s, n)].adsr.stage
            == ADSRStage::Release,
        quietest_release(s, n) >= 0 ==> forall|i: int|
            0 <= i < n && s[i].adsr.stage == ADSRStage::Release ==> s[quietest_release(
                s,
                n,
            )].adsr.capacitor.current <= s[i].adsr.capacitor.current,
        quietest_release(s, n) < 0 ==> forall|i: int|
            0 <= i < n ==> s[i].adsr.stage != ADSRStage::Release,
    decreases n,
{
    if n > 0 {
        lemma_quietest_release(s, n - 1);
    }
}

proof fn lemma_oldest_stealable(s: Seq<Voice>, n: int)
    requires
        0 <= n <= s.len(),
    ensures
        -1 <= oldest_stealable(s, n) < n,
        oldest_stealable(s, n) >= 0 ==> is_stealable(s[oldest_stealable(s, n)]),
        oldest_stealable(s, n) >= 0 ==> forall|i: int|
            0 <= i < n && is_stealable(s[i]) ==> s[oldest_stealable(s, n)].timestamp
                <= s[i].timestamp,
        oldest_stealable(s, n) < 0 ==> forall|i: int| 0 <= i < n ==> !is_stealable(s[i]),
    decreases n,
{
    if n > 0 {
        lemma_oldest_stealable(s, n - 1);
    }
}

/// Quick-release choice: when some voice is in Release, `quick_release` picks a
/// voice in Release that no other voice in Release is quieter than; otherwise,
/// when some voice is neither idle nor in QuickRelease, it picks such a voice
/// that no other such voice is older than; when every voice is idle it picks none.
pub proof fn lemma_quick_release_choice(s: Seq<Voice>)
    ensures
        (exists|i: int| 0 <= i < s.len() && s[i].adsr.stage == ADSRStage::Release) ==> {
            let k = quick_release_choice(s);
            &&& 0 <= k < s.len()
            &&& s[k].adsr.stage == ADSRStage::Release
            &&& forall|i: int|
                0 <= i < s.len() && s[i].adsr.stage == ADSRStage::Release
                    ==> s[k].adsr.capacitor.current <= s[i].adsr.capacitor.current
        },
        (forall|i: int| 0 <= i < s.len() ==> s[i].adsr.stage != ADSRStage::Release) && (exists|
            i: int,
        | 0 <= i < s.len() && is_stealable(s[i])) ==> {
            let k = quick_release_choice(s);
            &&& 0 <= k < s.len()
            &&& is_stealable(s[k])
            &&& forall|i: int|
                0 <= i < s.len() && is_stealable(s[i]) ==> s[k].timestamp <= s[i].timestamp
        },
        (forall|i: int| 0 <= i < s.len() ==> !is_active(s[i])) ==> quick_release_choice(s) < 0,
{
    lemma_quietest_release(s, s.len() as int);
    lemma_oldest_stealable(s, s.len() as int);
}

/// The number of sounding voices among the first `n`.
pub open spec fn active_count(s: Seq<Voice>, n: int) -> int
    decreases n,
{
    if n <= 0 {
        0
    } else {
        active_count(s, n - 1) + if is_active(s[n - 1]) {
            1int
        } else {
            0
        }
    }
}

/// The number of voices in QuickRelease among the first `n`.
pub open spec fn quick_release_count(s: Seq<Voice>, n: int) -> int
    decreases n,
{
    if n <= 0 {
        0
    } else {
        quick_release_count(s, n - 1) + if s[n - 1].adsr.stage == ADSRStage::QuickRelease {
            1int
        } else {
            0
        }
    }
}

/// The trigger counter after one more trigger, wrapping at `u32::MAX`.
pub open spec fn next_timestamp(counter: u32) -> u32 {
    if counter == u32::MAX {
        0
    } else {
        (counter + 1) as u32
    }
}

/// The voices, counter and result after playing `note` at `velocity`: retrigger
/// the first voice holding the note (when `retrigger` is set), else assign the
/// first idle voice, else report that all voices are busy and change nothing.
pub open spec fn play_spec<'a>(
    s: Seq<Voice<'a>>,
    counter: u32,
    note: Note,
    velocity: Velocity,
    retrigger: bool,
) -> (Seq<Voice<'a>>, u32, PlayNoteResult) {
    let h = first_holding(s, note, 0);
    let f = first_idle(s, 0);
    let ts = next_timestamp(counter);
    if retrigger && h < s.len() {
        (s.update(h, retriggered(s[h], ts, velocity)), ts, PlayNoteResult::Success)
    } else if f < s.len() {
        (s.update(f, played(s[f], ts, note, velocity)), ts, PlayNoteResult::Success)
    } else {
        (s, counter, PlayNoteResult::AllVoicesBusy)
    }
}

/// The voices after releasing `note`: every voice holding it enters Release.
pub open spec fn release_spec<'a>(s: Seq<Voice<'a>>, note: Note) -> Seq<Voice<'a>> {
    Seq::new(s.len(), |i: int| if holds(s[i], note) { stopped(s[i]) } else { s[i] })
}

/// Every voice has a velocity in 0-127 and a well-formed envelope.
pub open spec fn bank_wf(s: Seq<Voice>) -> bool {
    forall|i: int|
        0 <= i < s.len() ==> (#[trigger] s[i]).velocity.0 < 128 && crate::adsr::adsr_wf(
            s[i].adsr,
        )
}

/// The voices after `quick_release`.
pub open spec fn quick_release_spec<'a>(s: Seq<Voice<'a>>) -> Seq<Voice<'a>> {
    let k = quick_release_choice(s);
    if k >= 0 {
        s.update(k, quick_released(s[k]))
    } else {
        s
    }
}

/// Playing, releasing and quick-releasing keep the voices well-formed.
pub proof fn lemma_bank_wf_kept(s: Seq<Voice>, counter: u32, note: Note, velocity: Velocity)
    requires
        bank_wf(s),
        note.0 < 128,
        velocity.0 < 128,
    ensures
        bank_wf(play_spec(s, counter, note, velocity, true).0),
        bank_wf(play_spec(s, counter, note, velocity, false).0),
        bank_wf(release_spec(s, note)),
        bank_wf(quick_release_spec(s)),
{
    crate::adsr::lemma_amplitude_nonneg((velocity.0 * 2) as u8);
    lemma_quietest_release(s, s.len() as int);
    lemma_oldest_stealable(s, s.len() as int);
    lemma_first_holding_bound(s, note, 0);
    lemma_first_idle_bound(s, 0);
}

pub proof fn lemma_first_holding_bound(s: Seq<Voice>, note: Note, i: int)
    requires
        0 <= i <= s.len(),
    ensures
        i <= first_holding(s, note, i) <= s.len(),
        first_holding(s, note, i) < s.len() ==> holds(s[first_holding(s, note, i)], note),
    decreases s.len() - i,
{
    if i < s.len() {
        lemma_first_holding_bound(s, note, i + 1);
    }
}

pub proof fn lemma_first_idle_bound(s: Seq<Voice>, i: int)
    requires
        0 <= i <= s.len(),
    ensures
        i <= first_idle(s, i) <= s.len(),
        first_idle(s, i) < s.len() ==> !is_active(s[first_idle(s, i)]),
    decreases s.len() - i,
{
    if i < s.len() {
        lemma_first_idle_bound(s, i + 1);
    }
}

/// How replacing voice `k` changes the number of sounding voices.
pub proof fn lemma_active_count_update(s: Seq<Voice>, k: int, v: Voice, n: int)
    requires
        0 <= k < s.len(),
        0 <= n <= s.len(),
    ensures
        active_count(s.update(k, v), n) == active_count(s, n) + if k < n {
            (if is_active(v) {
                1int
            } else {
                0
            }) - (if is_active(s[k]) {
                1int
            } else {
                0
            })
        } else {
            0
        },
    decreases n,
{
    if n > 0 {
        lemma_active_count_update(s, k, v, n - 1);
    }
}

/// How replacing voice `k` changes the number of voices in QuickRelease.
pub proof fn lemma_quick_release_count_update(s: Seq<Voice>, k: int, v: Voice, n: int)
    requires
        0 <= k < s.len(),
        0 <= n <= s.len(),
    ensures
        quick_release_count(s.update(k, v), n) == quick_release_count(s, n) + if k < n {
            (if v.adsr.stage == ADSRStage::QuickRelease {
                1int
            } else {
                0
            }) - (if s[k].adsr.stage == ADSRStage::QuickRelease {
                1int
            } else {
                0
            })
        } else {
            0
        },
    decreases n,
{
    if n > 0 {
        lemma_quick_release_count_update(s, k, v, n - 1);
    }
}

/// Playing a note never adds a voice in QuickRelease.
pub proof fn lemma_play_quick_release_count(
    s: Seq<Voice>,
    counter: u32,
    note: Note,
    velocity: Velocity,
)
    ensures
        play_spec(s, counter, note, velocity, true).0.len() == s.len(),
        quick_release_count(play_spec(s, counter, note, velocity, true).0, s.len() as int)
            <= quick_release_count(s, s.len() as int),
{
    lemma_first_holding_bound(s, note, 0);
    lemma_first_idle_bound(s, 0);
    let h = first_holding(s, note, 0);
    let f = first_idle(s, 0);
    let ts = next_timestamp(counter);
    if h < s.len() {
        lemma_quick_release_count_update(s, h, retriggered(s[h], ts, velocity), s.len() as int);
    } else if f < s.len() {
        lemma_quick_release_count_update(s, f, played(s[f], ts, note, velocity), s.len() as int);
    }
}

/// A quick release adds at most one voice in QuickRelease.
pub proof fn lemma_quick_release_spec_count(s: Seq<Voice>)
    ensures
        quick_release_spec(s).len() == s.len(),
        quick_release_count(quick_release_spec(s), s.len() as int) <= quick_release_count(
            s,
            s.len() as int,
        ) + 1,
{
    lemma_quietest_release(s, s.len() as int);
    lemma_oldest_stealable(s, s.len() as int);
    let k = quick_release_choice(s);
    if k >= 0 {
        lemma_quick_release_count_update(s, k, quick_released(s[k]), s.len() as int);
    }
}

/// Releasing a note never adds a voice in QuickRelease.
pub proof fn lemma_release_quick_release_count(s: Seq<Voice>, note: Note, n: int)
    requires
        0 <= n <= s.len(),
    ensures
        release_spec(s, note).len() == s.len(),
        quick_release_count(release_spec(s, note), n) <= quick_release_count(s, n),
    decreases n,
{
    if n > 0 {
        lemma_release_quick_release_count(s, note, n - 1);
    }
}

/// Retrigger: playing a note that a sounding voice already holds succeeds on
/// that voice without taking another one, keeps the number of sounding voices,
/// leaves every other voice alone, and keeps the envelope level where it was,
/// so the envelope does not jump at the retrigger.
pub proof fn lemma_retrigger(s: Seq<Voice>, counter: u32, note: Note, velocity: Velocity)
    requires
        exists|i: int| 0 <= i < s.len() && holds(s[i], note),
    ensures
        ({
            let p = play_spec(s, counter, note, velocity, true);
            let h = first_holding(s, note, 0);
            &&& p.2 == PlayNoteResult::Success
            &&& 0 <= h < s.len()
            &&& p.0.len() == s.len()
            &&& active_count(p.0, s.len() as int) == active_count(s, s.len() as int)
            &&& p.0[h].adsr.capacitor.current == s[h].adsr.capacitor.current
            &&& p.0[h].adsr.stage == ADSRStage::Attack
            &&& p.0[h].note == note
            &&& forall|i: int| 0 <= i < s.len() && i != h ==> p.0[i] == s[i]
        }),
{
    let i = choose|i: int| 0 <= i < s.len() && holds(s[i], note);
    lemma_first_holding_reaches(s, note, 0, i);
    lemma_first_holding_bound(s, note, 0);
    let h = first_holding(s, note, 0);
    let ts = next_timestamp(counter);
    lemma_active_count_update(s, h, retriggered(s[h], ts, velocity), s.len() as int);
}

proof fn lemma_first_holding_reaches(s: Seq<Voice>, note: Note, from: int, i: int)
    requires
        0 <= from <= i < s.len(),
        holds(s[i], note),
    ensures
        first_holding(s, note, from) <= i,
    decreases i - from,
{
    if from < i && !holds(s[from], note) {
        lemma_first_holding_reaches(s, note, from + 1, i);
    }
}

/// A fixed-size pool of `N` voices and a wrapping trigger counter.
#[derive(Clone, Copy, Debug)]
pub struct VoiceBank<'a, const N: usize> {
    pub voices: [Voice<'a>; N],
    pub timestamp_counter: u32,
}

impl<'a, const N: usize> VoiceBank<'a, N> {
    /// The number of sounding voices.
    pub open spec fn active_voices(&self) -> int {
        active_count(self.voices@, N as int)
    }

    /// The number of voices in QuickRelease.
    pub open spec fn quick_release_voices(&self) -> int {
        quick_release_count(self.voices@, N as int)
    }

    /// `N` idle voices on `wavetable` with the given envelope settings; the
    /// counter starts at zero.
    pub fn new(
        wavetable: &'a [i16; 256],
        sustain_config: u8,
        attack_config: u8,
        decay_release_config: u8,
    ) -> (r: VoiceBank<'a, N>)
        ensures
            r.timestamp_counter == 0,
            forall|i: int|
                0 <= i < N ==> {
                    let v = #[trigger] r.voices@[i];
                    &&& v.timestamp == 0
                    &&& v.note == Note(0)
                    &&& v.velocity == Velocity(0)
                    &&& v.adsr == adsr_initial(sustain_config, attack_config, decay_release_config, 0)
                    &&& v.wavetable_osc.phase == 0
                    &&& v.wavetable_osc.phase_increment == 0
                    &&& *v.wavetable_osc.wavetable.0 == *wavetable
                },
    {
        let voice = Voice {
            timestamp: 0,
            note: Note(0),
            velocity: Velocity(0),
            adsr: ADSR::new(sustain_config, attack_config, decay_release_config, 0),
            wavetable_osc: WavetableOscillator::new(wavetable),
        };
        VoiceBank { voices: [voice;N], timestamp_counter: 0 }
    }

    /// Plays a NoteOn (ignoring the result) or releases a NoteOff's key.
    pub fn process_midi_event(&mut self, event: MidiEvent)
        requires
            event_in_range(event),
        ensures
            match event {
                MidiEvent::NoteOn { key, vel } => {
                    let p = play_spec(
                        old(self).voices@,
                        old(self).timestamp_counter,
                        Note(key),
                        Velocity(vel),
                        true,
                    );
                    final(self).voices@ == p.0 && final(self).timestamp_counter == p.1
                },
                MidiEvent::NoteOff { key, vel } => {
                    final(self).voices@ == release_spec(old(self).voices@, Note(key))
                        && final(self).timestamp_counter == old(self).timestamp_counter
                },
            },
    {
        match event {
            MidiEvent::NoteOn { key, vel } => {
                let _ = self.play_note(Note(key), Velocity(vel));
            },
            MidiEvent::NoteOff { key, vel: _ } => {
                self.release_note(Note(key));
            },
        }
    }

    /// Plays `note`: retriggers a voice already holding it, else assigns an
    /// idle voice, else returns `AllVoicesBusy` without changing anything.
    pub fn play_note(&mut self, note: Note, velocity: Velocity) -> (r: PlayNoteResult)
        requires
            note.0 < 128,
            velocity.0 < 128,
        ensures
            ({
                let p = play_spec(
                    old(self).voices@,
                    old(self).timestamp_counter,
                    note,
                    velocity,
                    true,
                );
                final(self).voices@ == p.0 && final(self).timestamp_counter == p.1 && r == p.2
            }),
    {
        self.play_note_optional_retrigger(note, velocity, true)
    }

    /// Plays `note` on an idle voice even when another voice holds it.
    pub fn play_duplicate_note(&mut self, note: Note, velocity: Velocity) -> (r: PlayNoteResult)
        requires
            note.0 < 128,
            velocity.0 < 128,
        ensures
            ({
                let p = play_spec(
                    old(self).voices@,
                    old(self).timestamp_counter,
                    note,
                    velocity,
                    false,
                );
                final(self).voices@ == p.0 && final(self).timestamp_counter == p.1 && r == p.2
            }),
    {
        self.play_note_optional_retrigger(note, velocity, false)
    }

    fn play_note_optional_retrigger(&mut self, note: Note, velocity: Velocity, retrigger: bool) -> (r:
        PlayNoteResult)
        requires
            note.0 < 128,
            velocity.0 < 128,
        ensures
            ({
                let p = play_spec(
                    old(self).voices@,
                    old(self).timestamp_counter,
                    note,
                    velocity,
                    retrigger,
                );
                final(self).voices@ == p.0 && final(self).timestamp_counter == p.1 && r == p.2
            }),
    {
        let ghost s = self.voices@;
        let ts: u32 = if self.timestamp_counter == u32::MAX {
            0
        } else {
            self.timestamp_counter + 1
        };
        if retrigger {
            let mut i: usize = 0;
            while i < N
                invariant
                    i <= N,
                    self.voices@ == s,
                    s.len() == N,
                    first_holding(s, note, 0) == first_holding(s, note, i as int),
                    retrigger,
                    note.0 < 128,
                    velocity.0 < 128,
                    s == old(self).voices@,
                    self.timestamp_counter == old(self).timestamp_counter,
                    ts == next_timestamp(old(self).timestamp_counter),
                decreases N - i,
            {
                if self.voices[i].note == note && !self.voices[i].adsr.is_idle() {
                    let mut v = self.voices[i];
                    v.timestamp = ts;
                    v.velocity = velocity;
                    v.adsr.retrigger(velocity.0);
                    self.voices[i] = v;
                    self.timestamp_counter = ts;
                    assert(first_holding(s, note, i as int) == i);
                    return PlayNoteResult::Success;
                }
                i = i + 1;
            }
        }
        let mut i: usize = 0;
        while i < N
            invariant
                i <= N,
                self.voices@ == s,
                s.len() == N,
                first_idle(s, 0) == first_idle(s, i as int),
                retrigger ==> first_holding(s, note, 0) == N,
                note.0 < 128,
                velocity.0 < 128,
                s == old(self).voices@,
                self.timestamp_counter == old(self).timestamp_counter,
                ts == next_timestamp(old(self).timestamp_counter),
            decreases N - i,
        {
            if self.voices[i].adsr.is_idle() {
                let mut v = self.voices[i];
                v.timestamp = ts;
                v.note = note;
                v.velocity = velocity;
                v.wavetable_osc.set_note(&note);
                v.adsr.play(velocity.0);
                self.voices[i] = v;
                self.timestamp_counter = ts;
                return PlayNoteResult::Success;
            }
            i = i + 1;
        }
        PlayNoteResult::AllVoicesBusy
    }

    /// Sends every voice holding `note` in Attack, Decay or Sustain into Release;
    /// voices already releasing, quick-releasing or idle, and other notes, are untouched.
    pub fn release_note(&mut self, note: Note)
        ensures
            final(self).voices@ == release_spec(old(self).voices@, note),
            final(self).timestamp_counter == old(self).timestamp_counter,
    {
        let ghost s = self.voices@;
        let mut i: usize = 0;
        while i < N
            invariant
                i <= N,
                s.len() == N,
                self.voices@.len() == N,
                self.timestamp_counter == old(self).timestamp_counter,
                s == old(self).voices@,
                forall|j: int| 0 <= j < i ==> self.voices@[j] == release_spec(s, note)[j],
                forall|j: int| i <= j < N ==> self.voices@[j] == s[j],
            decreases N - i,
        {
            if self.voices[i].note == note && !self.voices[i].adsr.is_idle() {
                let mut v = self.voices[i];
                v.adsr.stop_playing();
                self.voices[i] = v;
            }
            i = i + 1;
        }
        assert(self.voices@ =~= release_spec(s, note));
    }

    /// Sends one voice into QuickRelease: the quietest voice in Release if any,
    /// else the oldest voice that is neither idle nor already in QuickRelease;
    /// nothing when there is no such voice.
    pub fn quick_release(&mut self)
        ensures
            final(self).timestamp_counter == old(self).timestamp_counter,
            final(self).voices@ == quick_release_spec(old(self).voices@),
    {
        let ghost s = self.voices@;
        let mut best: usize = N;
        let mut i: usize = 0;
        while i < N
            invariant
                i <= N,
                s.len() == N,
                self.voices@ == s,
                best <= N,
                best == N <==> quietest_release(s, i as int) < 0,
                best < N ==> best == quietest_release(s, i as int) && best < i,
                quietest_release(s, i as int) < i,
                s == old(self).voices@,
                self.timestamp_counter == old(self).timestamp_counter,
            decreases N - i,
        {
            if self.voices[i].adsr.is_in_release() && (best == N
                || self.voices[i].adsr.capacitor.current < self.voices[best].adsr.capacitor.current) {
                best = i;
            }
            i = i + 1;
        }
        if best < N {
            let mut v = self.voices[best];
            v.adsr.quick_release();
            self.voices[best] = v;
            return ;
        }
        let mut i: usize = 0;
        while i < N
            invariant
                i <= N,
                s.len() == N,
                self.voices@ == s,
                quietest_release(s, N as int) < 0,
                best <= N,
                best == N <==> oldest_stealable(s, i as int) < 0,
                best < N ==> best == oldest_stealable(s, i as int) && best < i,
                oldest_stealable(s, i as int) < i,
                s == old(self).voices@,
                self.timestamp_counter == old(self).timestamp_counter,
            decreases N - i,
        {
            if !self.voices[i].adsr.is_in_quick_release() && !self.voices[i].adsr.is_idle() && (
            best == N || self.voices[i].timestamp < self.voices[best].timestamp) {
                best = i;
            }
            i = i + 1;
        }
        if best < N {
            let mut v = self.voices[best];
            v.adsr.quick_release();
            self.voices[best] = v;
        }
    }

    /// The number of sounding voices.
    pub fn count_active_voices(&self) -> (r: usize)
        ensures
            r == self.active_voices(),
    {
        let mut count: usize = 0;
        let mut i: usize = 0;
        while i < N
            invariant
                i <= N,
                count == active_count(self.voices@, i as int),
                count <= i,
            decreases N - i,
        {
            if !self.voices[i].adsr.is_idle() {
                count = count + 1;
            }
            i = i + 1;
        }
        count
    }

    /// The number of voices in QuickRelease.
    pub fn count_voices_in_quick_release(&self) -> (r: usize)
        ensures
            r == self.quick_release_voices(),
    {
        let mut count: usize = 0;
        let mut i: usize = 0;
        while i < N
            invariant
                i <= N,
                count == quick_release_count(self.voices@, i as int),
                count <= i,
            decreases N - i,
        {
            if self.voices[i].adsr.is_in_quick_release() {
                count = count + 1;
            }
            i = i + 1;
        }
        count
    }

    /// The note of voice `index`.
    pub fn get_voice_note(&self, index: usize) -> (r: Note)
        requires
            index < N,
        ensures
            r == self.voices@[index as int].note,
    {
        self.voices[index].note
    }

    /// The velocity of voice `index`.
    pub fn get_voice_velocity(&self, index: usize) -> (r: Velocity)
        requires
            index < N,
        ensures
            r == self.voices@[index as int].velocity,
    {
        self.voices[index].velocity
    }

    /// Whether voice `index` is free (idle) or held (sounding).
    pub fn get_voice_stage(&self, index: usize) -> (r: VoiceStage)
        requires
            index < N,
        ensures
            r == if is_active(self.voices@[index as int]) {
                VoiceStage::Held
            } else {
                VoiceStage::Free
            },
    {
        if self.voices[index].adsr.is_idle() {
            VoiceStage::Free
        } else {
            VoiceStage::Held
        }
    }
}

} // verus!
