//! Facts about whole render cycles, stated over the specifications that
//! `SynthEngine::render_samples` is verified against.
use crate::adsr::{adsr_after, adsr_initial, adsr_step, adsr_wf, ADSRStage, ADSR};
use crate::capacitor::{iterate_spec, QUICK_FALL_COEFFICIENT};
use crate::fixed_point::q31_mul_spec;
use crate::engine::{drain, intake, mix, mixed_window, voices_rendered, without_key, PendingNote};
use crate::fixed_point::Q15;
use crate::midi::MidiEvent;
use crate::voice_bank::{
    active_count, first_holding, first_idle, holds, is_active, lemma_active_count_update,
    lemma_first_holding_bound, lemma_first_idle_bound, next_timestamp, play_spec, played,
    quick_release_count, release_spec, Note, PlayNoteResult, Velocity, Voice,
};
use vstd::prelude::*;

verus! {

/// Whether `v` is a voice as `SynthEngine::new` builds it.
pub open spec fn fresh_voice(
    v: Voice,
    wavetable: [i16; 256],
    sustain_config: u8,
    attack_config: u8,
    decay_release_config: u8,
) -> bool {
    &&& v.timestamp == 0
    &&& v.note == Note(0)
    &&& v.velocity == Velocity(0)
    &&& v.adsr == adsr_initial(sustain_config, attack_config, decay_release_config, 0)
    &&& v.wavetable_osc.phase == 0
    &&& v.wavetable_osc.phase_increment == 0
    &&& *v.wavetable_osc.wavetable.0 == wavetable
}

/// Whether every event is a NoteOff.
pub open spec fn only_note_offs(events: Seq<MidiEvent>) -> bool {
    forall|i: int| 0 <= i < events.len() ==> (#[trigger] events[i]) is NoteOff
}

/// Whether every voice is idle.
pub open spec fn all_idle(s: Seq<Voice>) -> bool {
    forall|i: int| 0 <= i < s.len() ==> !is_active(#[trigger] s[i])
}

proof fn lemma_intake_silent(s: Seq<Voice>, q: Seq<PendingNote>, events: Seq<MidiEvent>, capacity: int)
    requires
        all_idle(s),
        q.len() == 0,
        only_note_offs(events),
    ensures
        intake(s, q, events, capacity) == (s, q),
    decreases events.len(),
{
    if events.len() > 0 {
        assert(only_note_offs(events.drop_last()));
        lemma_intake_silent(s, q, events.drop_last(), capacity);
        assert(events[events.len() - 1] is NoteOff);
        match events.last() {
            MidiEvent::NoteOff { key, vel } => {
                assert(release_spec(s, Note(key)) =~= s);
            },
            MidiEvent::NoteOn { key, vel } => {},
        }
    }
}

proof fn lemma_mix_silent(s: Seq<Voice>, n: int, j: int, shift: int)
    requires
        all_idle(s),
        n <= s.len(),
    ensures
        mix(s, n, j, shift) == 0,
    decreases n,
{
    if n > 0 {
        lemma_mix_silent(s, n - 1, j, shift);
    }
}

/// Silence: in a cycle that starts with every voice idle and no note queued
/// and takes in no NoteOn, the voices stay idle, the queue stays empty and the
/// mixed window is all zero. So an engine that has never been played renders
/// all-zero buffers, cycle after cycle.
pub proof fn lemma_silence(
    s: Seq<Voice>,
    counter: u32,
    q: Seq<PendingNote>,
    events: Seq<MidiEvent>,
    capacity: int,
    w: nat,
    shift: int,
)
    requires
        all_idle(s),
        q.len() == 0,
        only_note_offs(events),
    ensures
        ({
            let t = intake(s, q, events, capacity);
            let d = drain(t.0, counter, t.1);
            &&& d.0 == s
            &&& d.1 == counter
            &&& d.2.len() == 0
            &&& voices_rendered(d.0, w) == s
            &&& mixed_window(d.0, w as int, shift) == Seq::new(w, |j: int| Q15 { bits: 0 })
        }),
{
    lemma_intake_silent(s, q, events, capacity);
    assert(voices_rendered(s, w) =~= s);
    assert forall|j: int| 0 <= j < w implies #[trigger] mixed_window(s, w as int, shift)[j]
        == Q15 { bits: 0 } by {
        lemma_mix_silent(s, s.len() as int, j, shift);
    }
    assert(mixed_window(s, w as int, shift) =~= Seq::new(w, |j: int| Q15 { bits: 0 }));
}

/// Determinism: engines built by `SynthEngine::new` from the same arguments
/// start in the same state, and a cycle's result (`render_samples`' contract
/// fixes it from the state and the events alone) is then the same for both:
/// same voices, counter, queue and mixed window. Equal states stay equal, so
/// identical event sequences give bit-identical buffers in every cycle.
pub proof fn lemma_determinism(
    a: Seq<Voice>,
    b: Seq<Voice>,
    wavetable: [i16; 256],
    sustain_config: u8,
    attack_config: u8,
    decay_release_config: u8,
    events: Seq<MidiEvent>,
    capacity: int,
    w: nat,
    shift: int,
)
    requires
        a.len() == b.len(),
        forall|i: int|
            0 <= i < a.len() ==> fresh_voice(
                #[trigger] a[i],
                wavetable,
                sustain_config,
                attack_config,
                decay_release_config,
            ),
        forall|i: int|
            0 <= i < b.len() ==> fresh_voice(
                #[trigger] b[i],
                wavetable,
                sustain_config,
                attack_config,
                decay_release_config,
            ),
    ensures
        a == b,
        ({
            let ta = intake(a, Seq::empty(), events, capacity);
            let tb = intake(b, Seq::empty(), events, capacity);
            let da = drain(ta.0, 0, ta.1);
            let db = drain(tb.0, 0, tb.1);
            &&& da == db
            &&& voices_rendered(da.0, w) == voices_rendered(db.0, w)
            &&& mixed_window(da.0, w as int, shift) == mixed_window(db.0, w as int, shift)
        }),
{
    assert forall|i: int| 0 <= i < a.len() implies a[i] == b[i] by {
        assert(a[i].wavetable_osc.wavetable.0 == b[i].wavetable_osc.wavetable.0);
    }
    assert(a =~= b);
}

/// Draining never raises the number of voices in QuickRelease by more than one,
/// and afterwards that number is at most the larger of the number before and
/// the number of notes still waiting.
pub proof fn lemma_drain_quick_releases(s: Seq<Voice>, counter: u32, q: Seq<PendingNote>)
    ensures
        ({
            let d = drain(s, counter, q);
            let before = quick_release_count(s, s.len() as int);
            let after = quick_release_count(d.0, d.0.len() as int);
            &&& d.0.len() == s.len()
            &&& d.2.len() <= q.len()
            &&& after <= before + 1
            &&& after <= before || after <= d.2.len()
        }),
    decreases q.len(),
{
    if q.len() > 0 {
        let p = play_spec(s, counter, q[0].note, q[0].velocity, true);
        crate::voice_bank::lemma_play_quick_release_count(s, counter, q[0].note, q[0].velocity);
        if p.2 == PlayNoteResult::Success {
            lemma_drain_quick_releases(p.0, p.1, q.drop_first());
        } else if q.len() > quick_release_count(s, s.len() as int) {
            crate::voice_bank::lemma_quick_release_spec_count(s);
        }
    }
}

/// Quick-release demand over a cycle: the cycle quick-releases at most one
/// voice, and the number of voices in QuickRelease after it is at most the
/// larger of the number before and the number of notes left waiting, which is
/// at most the notes queued before plus the events of the cycle. So with `M`
/// notes waiting on a bank of `N > M` voices none of which was quick-releasing,
/// at most `M` voices (never all `N`) are quick-released.
pub proof fn lemma_quick_release_demand(
    s: Seq<Voice>,
    counter: u32,
    q: Seq<PendingNote>,
    events: Seq<MidiEvent>,
    capacity: int,
    w: nat,
)
    ensures
        ({
            let t = intake(s, q, events, capacity);
            let d = drain(t.0, counter, t.1);
            let r = voices_rendered(d.0, w);
            let before = quick_release_count(s, s.len() as int);
            let after = quick_release_count(r, r.len() as int);
            &&& after <= before + 1
            &&& after <= before || after <= d.2.len()
            &&& d.2.len() <= q.len() + events.len()
        }),
{
    lemma_intake_quick_releases(s, q, events, capacity);
    let t = intake(s, q, events, capacity);
    lemma_drain_quick_releases(t.0, counter, t.1);
    let d = drain(t.0, counter, t.1);
    lemma_rendered_quick_releases(d.0, w, d.0.len() as int);
}

/// Quick-release demand over many cycles: while at most `m` voices are in
/// QuickRelease and the waiting notes plus the cycle's events number at most
/// `m`, the cycle leaves at most `m` voices in QuickRelease and at most `m`
/// notes waiting. Starting from no quick release and `m` new notes, and with
/// no further events, this holds after every later cycle too; with `m` below
/// the number of voices, the engine never quick-releases them all.
pub proof fn lemma_quick_release_bounded(
    s: Seq<Voice>,
    counter: u32,
    q: Seq<PendingNote>,
    events: Seq<MidiEvent>,
    capacity: int,
    w: nat,
    m: int,
)
    requires
        quick_release_count(s, s.len() as int) <= m,
        q.len() + events.len() <= m,
    ensures
        ({
            let t = intake(s, q, events, capacity);
            let d = drain(t.0, counter, t.1);
            let r = voices_rendered(d.0, w);
            &&& quick_release_count(r, r.len() as int) <= m
            &&& d.2.len() <= m
            &&& r.len() == s.len()
        }),
{
    lemma_quick_release_demand(s, counter, q, events, capacity, w);
    lemma_intake_quick_releases(s, q, events, capacity);
    let t = intake(s, q, events, capacity);
    lemma_drain_quick_releases(t.0, counter, t.1);
}

proof fn lemma_intake_quick_releases(
    s: Seq<Voice>,
    q: Seq<PendingNote>,
    events: Seq<MidiEvent>,
    capacity: int,
)
    ensures
        ({
            let t = intake(s, q, events, capacity);
            &&& t.0.len() == s.len()
            &&& quick_release_count(t.0, s.len() as int) <= quick_release_count(s, s.len() as int)
            &&& t.1.len() <= q.len() + events.len()
        }),
    decreases events.len(),
{
    if events.len() > 0 {
        lemma_intake_quick_releases(s, q, events.drop_last(), capacity);
        let prev = intake(s, q, events.drop_last(), capacity);
        match events.last() {
            MidiEvent::NoteOff { key, vel } => {
                crate::voice_bank::lemma_release_quick_release_count(
                    prev.0,
                    Note(key),
                    prev.0.len() as int,
                );
                lemma_without_key_len(prev.1, key);
            },
            MidiEvent::NoteOn { key, vel } => {},
        }
    }
}

proof fn lemma_without_key_len(q: Seq<PendingNote>, key: u8)
    ensures
        without_key(q, key).len() <= q.len(),
    decreases q.len(),
{
    if q.len() > 0 {
        lemma_without_key_len(q.drop_last(), key);
    }
}

proof fn lemma_adsr_after_not_quick(a: ADSR, n: nat)
    requires
        a.stage != ADSRStage::QuickRelease,
    ensures
        adsr_after(a, n).stage != ADSRStage::QuickRelease,
    decreases n,
{
    if n > 0 {
        lemma_adsr_after_not_quick(a, (n - 1) as nat);
    }
}

proof fn lemma_rendered_quick_releases(s: Seq<Voice>, w: nat, n: int)
    requires
        0 <= n <= s.len(),
    ensures
        quick_release_count(voices_rendered(s, w), n) <= quick_release_count(s, n),
    decreases n,
{
    if n > 0 {
        lemma_rendered_quick_releases(s, w, n - 1);
        if s[n - 1].adsr.stage != ADSRStage::QuickRelease {
            lemma_adsr_after_not_quick(s[n - 1].adsr, w);
        }
    }
}

/// The key of a note event.
pub open spec fn event_key(e: MidiEvent) -> u8 {
    match e {
        MidiEvent::NoteOff { key, vel } => key,
        MidiEvent::NoteOn { key, vel } => key,
    }
}

/// The velocity of a note event.
pub open spec fn event_velocity(e: MidiEvent) -> u8 {
    match e {
        MidiEvent::NoteOff { key, vel } => vel,
        MidiEvent::NoteOn { key, vel } => vel,
    }
}

/// Whether every event is a NoteOn and no two share a key.
pub open spec fn distinct_note_ons(events: Seq<MidiEvent>) -> bool {
    &&& forall|i: int| 0 <= i < events.len() ==> (#[trigger] events[i]) is NoteOn
    &&& forall|i: int, j: int|
        0 <= i < j < events.len() ==> event_key(#[trigger] events[i]) != event_key(
            #[trigger] events[j],
        )
}

/// The pending notes that a run of NoteOns queues.
pub open spec fn pending_of(events: Seq<MidiEvent>) -> Seq<PendingNote> {
    Seq::new(
        events.len(),
        |i: int|
            PendingNote {
                note: Note(event_key(events[i])),
                velocity: Velocity(event_velocity(events[i])),
            },
    )
}

/// Whether the voice is sounding in Attack, Decay or Sustain.
pub open spec fn in_held_stage(v: Voice) -> bool {
    v.adsr.stage == ADSRStage::Attack || v.adsr.stage == ADSRStage::Decay || v.adsr.stage
        == ADSRStage::Sustain
}

proof fn lemma_intake_note_ons(s: Seq<Voice>, events: Seq<MidiEvent>, capacity: int)
    requires
        distinct_note_ons(events),
        events.len() <= capacity,
    ensures
        intake(s, Seq::empty(), events, capacity) == (s, pending_of(events)),
    decreases events.len(),
{
    if events.len() > 0 {
        let prefix = events.drop_last();
        assert(distinct_note_ons(prefix)) by {
            assert forall|i: int, j: int|
                0 <= i < j < prefix.len() implies event_key(#[trigger] prefix[i]) != event_key(
                #[trigger] prefix[j],
            ) by {
                assert(prefix[i] == events[i] && prefix[j] == events[j]);
            }
        }
        lemma_intake_note_ons(s, prefix, capacity);
        let n = events.len() - 1;
        assert(events[n] is NoteOn);
        let pq = pending_of(prefix);
        assert(!crate::engine::is_queued(pq, event_key(events[n]))) by {
            if exists|i: int| 0 <= i < pq.len() && (#[trigger] pq[i]).note.0 == event_key(events[n]) {
                let i = choose|i: int|
                    0 <= i < pq.len() && (#[trigger] pq[i]).note.0 == event_key(events[n]);
                assert(event_key(events[i]) != event_key(events[n]));
            }
        }
        assert(pending_of(events) =~= pq.push(
            PendingNote {
                note: Note(event_key(events[n])),
                velocity: Velocity(event_velocity(events[n])),
            },
        ));
    }
}

proof fn lemma_all_active_count(s: Seq<Voice>, n: int)
    requires
        0 <= n <= s.len(),
        forall|i: int| 0 <= i < n ==> is_active(#[trigger] s[i]),
    ensures
        active_count(s, n) == n,
    decreases n,
{
    if n > 0 {
        lemma_all_active_count(s, n - 1);
    }
}

proof fn lemma_drain_distinct(s: Seq<Voice>, counter: u32, q: Seq<PendingNote>)
    requires
        active_count(s, s.len() as int) + q.len() <= s.len(),
        forall|i: int, j: int|
            0 <= i < j < q.len() ==> (#[trigger] q[i]).note != (#[trigger] q[j]).note,
        forall|i: int| 0 <= i < s.len() && is_active(#[trigger] s[i]) ==> in_held_stage(s[i]),
        forall|i: int, j: int|
            0 <= i < s.len() && 0 <= j < q.len() && is_active(#[trigger] s[i]) ==> s[i].note
                != (#[trigger] q[j]).note,
        distinct_sounding_notes(s),
    ensures
        ({
            let d = drain(s, counter, q);
            &&& d.0.len() == s.len()
            &&& d.2.len() == 0
            &&& active_count(d.0, s.len() as int) == active_count(s, s.len() as int) + q.len()
            &&& forall|i: int|
                0 <= i < s.len() && is_active(#[trigger] d.0[i]) ==> in_held_stage(d.0[i])
            &&& distinct_sounding_notes(d.0)
            &&& forall|i: int|
                0 <= i < s.len() && is_active(#[trigger] s[i]) ==> is_active(d.0[i]) && d.0[i].note
                    == s[i].note
            &&& forall|j: int|
                0 <= j < q.len() ==> exists|i: int|
                    0 <= i < s.len() && is_active(#[trigger] d.0[i]) && d.0[i].note == (
                    #[trigger] q[j]).note
        }),
    decreases q.len(),
{
    if q.len() > 0 {
        let note = q[0].note;
        let velocity = q[0].velocity;
        lemma_first_holding_bound(s, note, 0);
        lemma_first_idle_bound(s, 0);
        assert(first_holding(s, note, 0) == s.len()) by {
            if first_holding(s, note, 0) < s.len() {
                let h = first_holding(s, note, 0);
                assert(holds(s[h], note));
            }
        }
        assert(first_idle(s, 0) < s.len()) by {
            if first_idle(s, 0) >= s.len() {
                lemma_first_idle_none(s, 0);
                lemma_all_active_count(s, s.len() as int);
            }
        }
        let f = first_idle(s, 0);
        let ts = next_timestamp(counter);
        let v = played(s[f], ts, note, velocity);
        let s2 = s.update(f, v);
        lemma_active_count_update(s, f, v, s.len() as int);
        let rest = q.drop_first();
        assert forall|i: int, j: int|
            0 <= i < s2.len() && 0 <= j < rest.len() && is_active(#[trigger] s2[i]) implies s2[i].note
            != (#[trigger] rest[j]).note by {
            assert(rest[j] == q[j + 1]);
            if i == f {
                assert(q[0].note != q[j + 1].note);
            } else {
                assert(s2[i] == s[i]);
            }
        }
        assert forall|i: int, j: int|
            0 <= i < j < rest.len() implies (#[trigger] rest[i]).note != (#[trigger] rest[j]).note by {
            assert(rest[i] == q[i + 1] && rest[j] == q[j + 1]);
        }
        assert(distinct_sounding_notes(s2)) by {
            assert forall|i1: int, i2: int|
                0 <= i1 < i2 < s2.len() && is_active(#[trigger] s2[i1]) && is_active(
                    #[trigger] s2[i2],
                ) implies s2[i1].note != s2[i2].note by {
                if i1 == f {
                    assert(s[i2].note != q[0].note);
                } else if i2 == f {
                    assert(s[i1].note != q[0].note);
                }
            }
        }
        lemma_drain_distinct(s2, ts, rest);
        let d = drain(s2, ts, rest);
        assert(play_spec(s, counter, note, velocity, true) == (s2, ts, PlayNoteResult::Success));
        assert(drain(s, counter, q) == d);
        assert forall|i: int|
            0 <= i < s.len() && is_active(#[trigger] s[i]) implies is_active(d.0[i])
            && d.0[i].note == s[i].note by {
            assert(i != f);
            assert(s2[i] == s[i]);
        }
        assert forall|j: int| 0 <= j < q.len() implies exists|i: int|
            0 <= i < s.len() && is_active(#[trigger] d.0[i]) && d.0[i].note == (
            #[trigger] q[j]).note by {
            if j == 0 {
                assert(is_active(s2[f]));
                assert(is_active(d.0[f]) && d.0[f].note == q[0].note);
            } else {
                assert(q[j] == rest[j - 1]);
            }
        }
    }
}

/// Whether some sounding voice holds `key`.
pub open spec fn sounds_key(s: Seq<Voice>, key: u8) -> bool {
    exists|i: int| 0 <= i < s.len() && is_active(#[trigger] s[i]) && s[i].note == Note(key)
}

/// Whether no two sounding voices hold the same note.
pub open spec fn distinct_sounding_notes(s: Seq<Voice>) -> bool {
    forall|i1: int, i2: int|
        0 <= i1 < i2 < s.len() && is_active(#[trigger] s[i1]) && is_active(#[trigger] s[i2])
            ==> s[i1].note != s[i2].note
}

proof fn lemma_first_idle_none(s: Seq<Voice>, from: int)
    requires
        0 <= from <= s.len(),
        first_idle(s, from) >= s.len(),
    ensures
        forall|i: int| from <= i < s.len() ==> is_active(#[trigger] s[i]),
    decreases s.len() - from,
{
    if from < s.len() {
        lemma_first_idle_none(s, from + 1);
    }
}

proof fn lemma_rendered_active(s: Seq<Voice>, w: nat, n: int)
    requires
        0 <= n <= s.len(),
        forall|i: int| 0 <= i < s.len() && is_active(#[trigger] s[i]) ==> in_held_stage(s[i]),
    ensures
        active_count(voices_rendered(s, w), n) == active_count(s, n),
    decreases n,
{
    if n > 0 {
        lemma_rendered_active(s, w, n - 1);
        if is_active(s[n - 1]) {
            crate::adsr::lemma_adsr_after_held(s[n - 1].adsr, w);
        }
    }
}

/// Allocation: a cycle that starts with every voice idle and no note queued
/// and takes in `k` NoteOns with distinct keys, `k` at most the number of
/// voices, ends with exactly `k` voices sounding, an empty queue, and each key
/// on exactly one sounding voice.
pub proof fn lemma_allocation(s: Seq<Voice>, counter: u32, events: Seq<MidiEvent>, w: nat)
    requires
        all_idle(s),
        events.len() <= s.len(),
        distinct_note_ons(events),
    ensures
        ({
            let t = intake(s, Seq::empty(), events, s.len() as int);
            let d = drain(t.0, counter, t.1);
            let r = voices_rendered(d.0, w);
            &&& active_count(r, s.len() as int) == events.len()
            &&& d.2.len() == 0
            &&& distinct_sounding_notes(r)
            &&& forall|j: int|
                0 <= j < events.len() ==> sounds_key(r, #[trigger] event_key(events[j]))
        }),
{
    lemma_intake_note_ons(s, events, s.len() as int);
    let q = pending_of(events);
    assert(active_count(s, s.len() as int) == 0) by {
        lemma_no_active_count(s, s.len() as int);
    }
    assert forall|i: int, j: int| 0 <= i < j < q.len() implies (#[trigger] q[i]).note != (
    #[trigger] q[j]).note by {
        assert(event_key(events[i]) != event_key(events[j]));
    }
    lemma_drain_distinct(s, counter, q);
    let d = drain(s, counter, q);
    lemma_rendered_active(d.0, w, s.len() as int);
    let r = voices_rendered(d.0, w);
    assert forall|i: int| 0 <= i < s.len() implies #[trigger] is_active(r[i]) == is_active(d.0[i])
        && r[i].note == d.0[i].note by {
        if is_active(d.0[i]) {
            crate::adsr::lemma_adsr_after_held(d.0[i].adsr, w);
        }
    }
    assert forall|j: int| 0 <= j < events.len() implies sounds_key(
        r,
        #[trigger] event_key(events[j]),
    ) by {
        assert(q[j].note == Note(event_key(events[j])));
        let i = choose|i: int| 0 <= i < s.len() && is_active(#[trigger] d.0[i]) && d.0[i].note == (
        #[trigger] q[j]).note;
        assert(is_active(r[i]));
    }
    assert(distinct_sounding_notes(r)) by {
        assert forall|i1: int, i2: int|
            0 <= i1 < i2 < r.len() && is_active(#[trigger] r[i1]) && is_active(#[trigger] r[i2])
            implies r[i1].note != r[i2].note by {
            assert(is_active(d.0[i1]) && is_active(d.0[i2]));
        }
    }
    assert(d.2.len() == 0);
}

proof fn lemma_no_active_count(s: Seq<Voice>, n: int)
    requires
        0 <= n <= s.len(),
        all_idle(s),
    ensures
        active_count(s, n) == 0,
    decreases n,
{
    if n > 0 {
        lemma_no_active_count(s, n - 1);
    }
}

proof fn lemma_after_idle(a: ADSR, n: nat)
    requires
        a.stage == ADSRStage::Idle,
    ensures
        adsr_after(a, n) == a,
    decreases n,
{
    if n > 0 {
        lemma_after_idle(a, (n - 1) as nat);
    }
}

proof fn lemma_after_add(a: ADSR, m: nat, n: nat)
    ensures
        adsr_after(adsr_after(a, m), n) == adsr_after(a, m + n),
    decreases n,
{
    if n > 0 {
        lemma_after_add(a, m, (n - 1) as nat);
        assert((m + n - 1) as nat + 1 == m + n);
    }
}

proof fn lemma_mul_below(level: int, c: int)
    requires
        1 <= level < 0x8000_0000,
        0 <= c < 0x8000_0000,
    ensures
        q31_mul_spec(level, c) <= level - 1,
{
    let d = 0x8000_0000int;
    assert(level * c <= level * d - 1) by (nonlinear_arith)
        requires
            1 <= level,
            c <= d - 1,
    ;
    vstd::arithmetic::div_mod::lemma_div_is_ordered(level * c, level * d - 1, d);
    assert(level * d - 1 == (level - 1) * d + (d - 1)) by (nonlinear_arith);
    vstd::arithmetic::div_mod::lemma_fundamental_div_mod_converse(
        level * d - 1,
        d,
        level - 1,
        d - 1,
    );
}

/// One step of a releasing envelope either ends in Idle or keeps releasing
/// at a strictly lower level.
proof fn lemma_release_step(a: ADSR)
    requires
        adsr_wf(a),
        a.stage == ADSRStage::Release || a.stage == ADSRStage::QuickRelease,
    ensures
        adsr_step(a).stage == ADSRStage::Idle || (adsr_step(a).stage == a.stage
            && adsr_step(a).capacitor.current < a.capacitor.current),
        adsr_wf(adsr_step(a)),
{
    crate::adsr::lemma_envelope_direction(a);
    let cur = a.capacitor.current as int;
    if cur >= 1 {
        lemma_mul_below(cur, a.capacitor.fall_coeff.coefficient as int);
        lemma_mul_below(cur, QUICK_FALL_COEFFICIENT as int);
    }
}

/// A releasing envelope reaches Idle within one step more than its level.
pub proof fn lemma_release_reaches_idle(a: ADSR, n: nat)
    requires
        adsr_wf(a),
        a.stage == ADSRStage::Release || a.stage == ADSRStage::QuickRelease,
        n > a.capacitor.current,
    ensures
        adsr_after(a, n).stage == ADSRStage::Idle,
        adsr_after(a, n).capacitor.current == 0,
    decreases n,
{
    lemma_release_step(a);
    let b = adsr_step(a);
    lemma_after_add(a, 1, (n - 1) as nat);
    assert(adsr_after(a, 1) == b) by {
        assert(adsr_after(a, 0) == a);
    }
    if b.stage == ADSRStage::Idle {
        lemma_after_idle(b, (n - 1) as nat);
        assert(b.capacitor.current == 0);
    } else {
        lemma_release_reaches_idle(b, (n - 1) as nat);
    }
}

/// The voices after `k` cycles that take in no event, from an empty queue.
pub open spec fn quiet_cycles<'a>(s: Seq<Voice<'a>>, w: nat, k: nat) -> Seq<Voice<'a>>
    decreases k,
{
    if k == 0 {
        s
    } else {
        voices_rendered(quiet_cycles(s, w, (k - 1) as nat), w)
    }
}

/// A cycle that takes in no event from an empty queue only renders the voices.
pub proof fn lemma_quiet_cycle(s: Seq<Voice>, counter: u32, capacity: int, w: nat)
    ensures
        ({
            let t = intake(s, Seq::empty(), Seq::empty(), capacity);
            let d = drain(t.0, counter, t.1);
            &&& d.0 == s
            &&& d.1 == counter
            &&& d.2.len() == 0
        }),
{
}

proof fn lemma_quiet_cycles_len(s: Seq<Voice>, w: nat, k: nat)
    ensures
        quiet_cycles(s, w, k).len() == s.len(),
    decreases k,
{
    if k > 0 {
        lemma_quiet_cycles_len(s, w, (k - 1) as nat);
    }
}

proof fn lemma_quiet_cycles_voice(s: Seq<Voice>, w: nat, k: nat, i: int)
    requires
        0 <= i < s.len(),
    ensures
        quiet_cycles(s, w, k).len() == s.len(),
        quiet_cycles(s, w, k)[i].adsr == adsr_after(s[i].adsr, k * w),
    decreases k,
{
    if k > 0 {
        lemma_quiet_cycles_voice(s, w, (k - 1) as nat, i);
        let prev = quiet_cycles(s, w, (k - 1) as nat);
        lemma_after_add(s[i].adsr, ((k - 1) * w) as nat, w);
        assert((k - 1) * w + w == k * w) by (nonlinear_arith);
        if prev[i].adsr.stage == ADSRStage::Idle {
            lemma_after_idle(prev[i].adsr, w);
        }
    } else {
        assert(k * w == 0) by (nonlinear_arith) requires k == 0;
    }
}

/// Release reaches silence: when every sounding voice is releasing (as after
/// the NoteOff of its note), no note waits and no further event arrives, then
/// after `k` cycles of `w` samples with `k · w > 2^31` every voice is idle at
/// level zero, and stays so: those cycles and all later ones mix to silence.
pub proof fn lemma_release_reaches_silence(s: Seq<Voice>, w: nat, k: nat, shift: int)
    requires
        forall|i: int|
            0 <= i < s.len() ==> adsr_wf((#[trigger] s[i]).adsr) && (!is_active(s[i])
                || s[i].adsr.stage == ADSRStage::Release || s[i].adsr.stage
                == ADSRStage::QuickRelease),
        k * w > 0x8000_0000,
    ensures
        all_idle(quiet_cycles(s, w, k)),
        forall|i: int|
            0 <= i < s.len() ==> (#[trigger] quiet_cycles(s, w, k)[i]).adsr.capacitor.current
                == 0 || !is_active(s[i]),
        mixed_window(quiet_cycles(s, w, k), w as int, shift) == Seq::new(w, |j: int| Q15 { bits: 0 }),
{
    let r = quiet_cycles(s, w, k);
    lemma_quiet_cycles_len(s, w, k);
    assert forall|i: int| 0 <= i < r.len() implies !is_active(#[trigger] r[i]) && (r[i].adsr.capacitor.current
        == 0 || !is_active(s[i])) by {
        lemma_quiet_cycles_voice(s, w, k, i);
        if is_active(s[i]) {
            lemma_release_reaches_idle(s[i].adsr, k * w);
        } else {
            lemma_after_idle(s[i].adsr, k * w);
        }
    }
    assert forall|i: int| 0 <= i < s.len() implies (#[trigger] quiet_cycles(s, w, k)[i]).adsr.capacitor.current
        == 0 || !is_active(s[i]) by {
        lemma_quiet_cycles_voice(s, w, k, i);
    }
    assert forall|j: int| 0 <= j < w implies #[trigger] mixed_window(r, w as int, shift)[j]
        == Q15 { bits: 0 } by {
        lemma_mix_silent(r, r.len() as int, j, shift);
    }
    assert(mixed_window(r, w as int, shift) =~= Seq::new(w, |j: int| Q15 { bits: 0 }));
}

} // verus!
