//! Note events as the engine receives them.
use vstd::prelude::*;

verus! {

/// A note event: a MIDI key and velocity, each 0-127.
#[derive(Clone, Copy, Debug, PartialEq, Eq, Structural)]
pub enum MidiEvent {
    NoteOff { key: u8, vel: u8 },
    NoteOn { key: u8, vel: u8 },
}

/// Whether the event's key and velocity are in the MIDI range 0-127.
pub open spec fn event_in_range(e: MidiEvent) -> bool {
    match e {
        MidiEvent::NoteOff { key, vel } => key < 128 && vel < 128,
        MidiEvent::NoteOn { key, vel } => key < 128 && vel < 128,
    }
}

} // verus!
