use sequence_player::{
    note_off_message, note_on_message, note_value_to_string, parse_note_to_midi, MidiNoteError,
    Note, NoteValue, Trig,
};

fn note(octave: i32, value: NoteValue, velocity: u32) -> Note {
    Note { octave, value, velocity }
}

fn trig(n: Option<Note>, track: u32) -> Trig {
    Trig { note: n, track, step: 0, offset: 0, length: 100 }
}

#[test]
fn middle_c_is_60() {
    assert_eq!(parse_note_to_midi(&note(4, NoteValue::C, 100)), Ok(60));
}

#[test]
fn pitch_covers_all_classes() {
    assert_eq!(parse_note_to_midi(&note(-1, NoteValue::C, 1)), Ok(0));
    assert_eq!(parse_note_to_midi(&note(4, NoteValue::A, 1)), Ok(69));
    assert_eq!(parse_note_to_midi(&note(9, NoteValue::G, 1)), Ok(127));
    assert_eq!(parse_note_to_midi(&note(3, NoteValue::B, 1)), Ok(59));
    assert_eq!(parse_note_to_midi(&note(3, NoteValue::FSharp, 1)), Ok(54));
}

#[test]
fn pitch_above_127_is_rejected() {
    assert_eq!(
        parse_note_to_midi(&note(9, NoteValue::GSharp, 1)),
        Err(MidiNoteError::OutOfRange { midi_note: 128 })
    );
}

#[test]
fn pitch_below_0_is_rejected() {
    assert_eq!(
        parse_note_to_midi(&note(-2, NoteValue::B, 1)),
        Err(MidiNoteError::OutOfRange { midi_note: -1 })
    );
}

#[test]
fn extreme_octave_does_not_overflow() {
    assert_eq!(
        parse_note_to_midi(&note(i32::MAX, NoteValue::C, 1)),
        Err(MidiNoteError::OutOfRange { midi_note: (i32::MAX as i64 + 1) * 12 })
    );
}

#[test]
fn unknown_value_is_rejected() {
    assert_eq!(
        parse_note_to_midi(&note(4, NoteValue::UnknownNote, 1)),
        Err(MidiNoteError::InvalidNoteValue)
    );
}

#[test]
fn note_names() {
    assert_eq!(note_value_to_string(NoteValue::C), "C");
    assert_eq!(note_value_to_string(NoteValue::CSharp), "C#");
    assert_eq!(note_value_to_string(NoteValue::ASharp), "A#");
    assert_eq!(note_value_to_string(NoteValue::B), "B");
    assert_eq!(note_value_to_string(NoteValue::UnknownNote), "?");
}

#[test]
fn note_on_uses_track_channel_pitch_and_velocity() {
    assert_eq!(note_on_message(&trig(Some(note(4, NoteValue::C, 100)), 0)), Some([0x90, 60, 100]));
    assert_eq!(note_on_message(&trig(Some(note(4, NoteValue::D, 64)), 17)), Some([0x91, 62, 64]));
    assert_eq!(note_on_message(&trig(Some(note(4, NoteValue::D, 64)), 15)), Some([0x9f, 62, 64]));
}

#[test]
fn note_on_keeps_low_byte_of_velocity() {
    assert_eq!(note_on_message(&trig(Some(note(4, NoteValue::C, 300)), 0)), Some([0x90, 60, 44]));
}

#[test]
fn note_off_has_zero_velocity() {
    assert_eq!(note_off_message(&trig(Some(note(4, NoteValue::C, 100)), 2)), Some([0x82, 60, 0]));
}

#[test]
fn rests_and_unplayable_notes_have_no_message() {
    assert_eq!(note_on_message(&trig(None, 0)), None);
    assert_eq!(note_off_message(&trig(None, 0)), None);
    assert_eq!(note_on_message(&trig(Some(note(4, NoteValue::UnknownNote, 100)), 0)), None);
    assert_eq!(note_off_message(&trig(Some(note(20, NoteValue::C, 100)), 0)), None);
}
