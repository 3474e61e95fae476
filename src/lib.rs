//! A polyphonic fixed-point synthesis engine: voice allocation, envelopes,
//! wavetable oscillators, an octave filter bank and the per-cycle renderer.
pub mod adder;
pub mod adsr;
pub mod capacitor;
pub mod config;
pub mod engine;
pub mod engine_lemmas;
pub mod fixed_point;
pub mod kernel;
pub mod midi;
pub mod octave_filter;
pub mod tables;
pub mod voice_bank;
pub mod wavetable;

pub use adder::add;
pub use adsr::{ADSRStage, ADSR};
pub use capacitor::{BaseAndCoefficient, Capacitor, CapacitorStatus};
pub use config::{Config, ConfigEvent, ConfigManager, Page};
pub use engine::{PendingNote, SynthEngine, SAMPLE_RATE, WINDOW_SIZE};
pub use fixed_point::Q15;
pub use kernel::{CmsisOperations, CmsisRustOperations};
pub use midi::MidiEvent;
pub use octave_filter::OctaveFilterBank;
pub use voice_bank::{Note, PlayNoteResult, Velocity, VoiceBank, VoiceStage};
pub use wavetable::{Wavetable, WavetableOscillator};
