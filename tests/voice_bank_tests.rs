use synth_engine::tables::SINE_WAVETABLE;
use synth_engine::{MidiEvent, Note, PlayNoteResult, Q15, Velocity, VoiceBank, VoiceStage};

const TEST_VOICE_BANK_SIZE: usize = 4;

fn setup_voice_bank() -> VoiceBank<'static, TEST_VOICE_BANK_SIZE> {
    VoiceBank::<TEST_VOICE_BANK_SIZE>::new(&SINE_WAVETABLE, 200, 50, 100)
}

#[test]
fn voice_bank_new_initializes_all_voices_as_free() {
    let vb = setup_voice_bank();

    assert_eq!(vb.count_active_voices(), 0);
    for i in 0..TEST_VOICE_BANK_SIZE {
        assert_eq!(vb.get_voice_stage(i), VoiceStage::Free);
    }
}

#[test]
fn voice_bank_play_note_fills_free_voices() {
    let mut vb = setup_voice_bank();

    for i in 0..TEST_VOICE_BANK_SIZE {
        let _ = vb.play_note(Note::new(i as u8), Velocity::new(100));
        assert_eq!(vb.count_active_voices(), i + 1);
        assert_eq!(vb.get_voice_note(i), Note::new(i as u8));
        assert_eq!(vb.get_voice_velocity(i), Velocity::new(100));
        assert_eq!(vb.get_voice_stage(i), VoiceStage::Held);
    }
    assert_eq!(vb.count_active_voices(), TEST_VOICE_BANK_SIZE);
}

#[test]
fn voice_bank_play_note_returns_err_when_full() {
    let mut vb = setup_voice_bank();

    for i in 0..TEST_VOICE_BANK_SIZE {
        let result = vb.play_note(Note::new(i as u8), Velocity::new(100));
        assert_eq!(result, PlayNoteResult::Success);
    }
    assert_eq!(vb.count_active_voices(), TEST_VOICE_BANK_SIZE);

    let extra_note = TEST_VOICE_BANK_SIZE as u8;
    let result = vb.play_note(Note::new(extra_note), Velocity::new(120));
    assert_eq!(result, PlayNoteResult::AllVoicesBusy);

    assert_eq!(vb.count_active_voices(), TEST_VOICE_BANK_SIZE);
    for i in 0..TEST_VOICE_BANK_SIZE {
        assert_eq!(vb.get_voice_note(i), Note::new(i as u8));
        assert_eq!(vb.get_voice_velocity(i), Velocity::new(100));
        assert_eq!(vb.get_voice_stage(i), VoiceStage::Held);
    }
}

#[test]
fn voice_bank_release_note_triggers_release() {
    let mut vb = setup_voice_bank();

    let note_to_play = 60;
    let _ = vb.play_note(Note::new(note_to_play), Velocity::new(100));
    assert_eq!(vb.count_active_voices(), 1);

    vb.release_note(Note::new(note_to_play));
    assert_eq!(vb.count_active_voices(), 1);
    assert_eq!(vb.get_voice_stage(0), VoiceStage::Held);
}

#[test]
fn voice_bank_release_note_releases_all_instances_of_a_note() {
    let mut vb = setup_voice_bank();

    let note_to_play = 60;
    let result1 = vb.play_note(Note::new(note_to_play), Velocity::new(100));
    assert_eq!(result1, PlayNoteResult::Success);
    let result2 = vb.play_duplicate_note(Note::new(note_to_play), Velocity::new(90));
    assert_eq!(result2, PlayNoteResult::Success);
    assert_eq!(vb.count_active_voices(), 2);

    vb.release_note(Note::new(note_to_play));
    assert_eq!(vb.count_active_voices(), 2);
    assert_eq!(vb.get_voice_stage(0), VoiceStage::Held);
    assert_eq!(vb.get_voice_stage(1), VoiceStage::Held);
}

#[test]
fn voice_bank_release_note_non_existent_does_nothing() {
    let mut vb = setup_voice_bank();

    let _ = vb.play_note(Note::new(60), Velocity::new(100));
    let _ = vb.play_note(Note::new(62), Velocity::new(100));
    assert_eq!(vb.count_active_voices(), 2);

    vb.release_note(Note::new(64));
    assert_eq!(vb.count_active_voices(), 2);
    assert_eq!(vb.get_voice_note(0), Note::new(60));
    assert_eq!(vb.get_voice_note(1), Note::new(62));
    assert_eq!(vb.get_voice_stage(0), VoiceStage::Held);
    assert_eq!(vb.get_voice_stage(1), VoiceStage::Held);
}

#[test]
fn voice_bank_process_midi_event_handles_note_on_and_off() {
    let mut vb = setup_voice_bank();

    let note = 60;
    let vel = 100;

    vb.process_midi_event(MidiEvent::NoteOn { key: note, vel });
    assert_eq!(vb.count_active_voices(), 1);
    assert_eq!(vb.get_voice_note(0), Note::new(note));
    assert_eq!(vb.get_voice_velocity(0), Velocity::new(vel));
    assert_eq!(vb.get_voice_stage(0), VoiceStage::Held);

    vb.process_midi_event(MidiEvent::NoteOff { key: note, vel: 0 });
    assert_eq!(vb.count_active_voices(), 1);
    assert_eq!(vb.get_voice_stage(0), VoiceStage::Held);
}

#[test]
fn voice_bank_quick_release_selects_quietest_in_release() {
    let mut vb = setup_voice_bank();

    let mut buffer = [Q15::from_bits(0); 128];

    for i in 0..TEST_VOICE_BANK_SIZE {
        assert_eq!(
            vb.play_note(Note::new(60 + i as u8), Velocity::new(100)),
            PlayNoteResult::Success
        );
        for _ in 0..10 {
            vb.voices[i].adsr.get_samples(&mut buffer);
        }
    }

    for i in 0..TEST_VOICE_BANK_SIZE {
        vb.release_note(Note::new(60 + i as u8));
    }

    for voice in &vb.voices {
        assert!(voice.adsr.is_in_release());
    }

    vb.voices[0].adsr.get_samples(&mut buffer);
    vb.voices[0].adsr.get_samples(&mut buffer);

    let level = |vb: &VoiceBank<'static, TEST_VOICE_BANK_SIZE>, i: usize| vb.voices[i].adsr.get_level();
    assert!(level(&vb, 0) < level(&vb, 1));
    assert!(level(&vb, 0) < level(&vb, 2));
    assert!(level(&vb, 0) < level(&vb, 3));

    vb.quick_release();

    assert!(vb.voices[0].adsr.is_in_quick_release());

    for i in 1..TEST_VOICE_BANK_SIZE {
        assert!(vb.voices[i].adsr.is_in_release());
    }
}

#[test]
fn voice_bank_quick_release_selects_oldest_when_none_in_release() {
    let mut vb = setup_voice_bank();

    for i in 0..TEST_VOICE_BANK_SIZE {
        assert_eq!(
            vb.play_note(Note::new(60 + i as u8), Velocity::new(100)),
            PlayNoteResult::Success
        );
    }

    assert_eq!(vb.voices[0].timestamp, 1);
    assert_eq!(vb.voices[1].timestamp, 2);
    assert_eq!(vb.voices[2].timestamp, 3);
    assert_eq!(vb.voices[3].timestamp, 4);

    vb.quick_release();

    assert!(vb.voices[0].adsr.is_in_quick_release());

    for i in 1..TEST_VOICE_BANK_SIZE {
        assert!(!vb.voices[i].adsr.is_in_quick_release());
    }
}

#[test]
fn voice_bank_quick_release_handles_all_idle() {
    let mut vb = setup_voice_bank();

    assert_eq!(vb.count_active_voices(), 0);

    vb.quick_release();

    assert_eq!(vb.count_active_voices(), 0);
    for voice in &vb.voices {
        assert!(voice.adsr.is_idle());
    }
}
