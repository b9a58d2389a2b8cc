//! MIDI encoding of notes: pitch numbers and channel messages.

use vstd::prelude::*;
use crate::pattern::{Note, NoteValue, Trig};

verus! {

/// Status nibble of a note-on message.
pub const NOTE_ON: u8 = 0x90;

/// Status nibble of a note-off message.
pub const NOTE_OFF: u8 = 0x80;

/// Number of MIDI channels; a trig's track is mapped onto them cyclically.
pub const CHANNELS: u32 = 16;

/// Why a note has no MIDI pitch.
#[derive(Clone, Copy, Debug, PartialEq, Eq, Structural)]
pub enum MidiNoteError {
    /// The note's value is the unknown sentinel.
    InvalidNoteValue,
    /// The computed pitch lies outside `0..=127`.
    OutOfRange { midi_note: i64 },
}

/// Semitones above C of a pitch class; none for the unknown sentinel.
pub open spec fn semitone_of(value: NoteValue) -> Option<int> {
    match value {
        NoteValue::UnknownNote => None,
        NoteValue::C => Some(0),
        NoteValue::CSharp => Some(1),
        NoteValue::D => Some(2),
        NoteValue::DSharp => Some(3),
        NoteValue::E => Some(4),
        NoteValue::F => Some(5),
        NoteValue::FSharp => Some(6),
        NoteValue::G => Some(7),
        NoteValue::GSharp => Some(8),
        NoteValue::A => Some(9),
        NoteValue::ASharp => Some(10),
        NoteValue::B => Some(11),
    }
}

/// The pitch number `(octave + 1) * 12 + semitone` of a note whose value is known.
pub open spec fn midi_pitch(note: Note) -> int
    recommends
        semitone_of(note.value) is Some,
{
    (note.octave + 1) * 12 + semitone_of(note.value)->0
}

/// The outcome of mapping a note to a MIDI pitch.
pub open spec fn spec_parse_note(note: Note) -> Result<u8, MidiNoteError> {
    if semitone_of(note.value) is None {
        Err(MidiNoteError::InvalidNoteValue)
    } else if 0 <= midi_pitch(note) <= 127 {
        Ok(midi_pitch(note) as u8)
    } else {
        Err(MidiNoteError::OutOfRange { midi_note: midi_pitch(note) as i64 })
    }
}

/// The printable name of a pitch class; `?` for the unknown sentinel.
pub open spec fn note_name(value: NoteValue) -> Seq<char> {
    match value {
        NoteValue::UnknownNote => "?"@,
        NoteValue::C => "C"@,
        NoteValue::CSharp => "C#"@,
        NoteValue::D => "D"@,
        NoteValue::DSharp => "D#"@,
        NoteValue::E => "E"@,
        NoteValue::F => "F"@,
        NoteValue::FSharp => "F#"@,
        NoteValue::G => "G"@,
        NoteValue::GSharp => "G#"@,
        NoteValue::A => "A"@,
        NoteValue::ASharp => "A#"@,
        NoteValue::B => "B"@,
    }
}

/// The channel of a trig: its track modulo 16.
pub open spec fn channel_of(trig: Trig) -> int {
    trig.track as int % CHANNELS as int
}

/// The note-on message of a trig, if it carries a note with a MIDI pitch:
/// status `0x90 + channel`, the pitch, and the velocity's low byte.
pub open spec fn spec_note_on_message(trig: Trig) -> Option<Seq<u8>> {
    match trig.note {
        Some(note) => match spec_parse_note(note) {
            Ok(pitch) => Some(
                seq![
                    (NOTE_ON + channel_of(trig)) as u8,
                    pitch,
                    (note.velocity as int % 256) as u8,
                ],
            ),
            Err(_) => None,
        },
        None => None,
    }
}

/// The note-off message of a trig, if it carries a note with a MIDI pitch:
/// status `0x80 + channel`, the pitch, and velocity zero.
pub open spec fn spec_note_off_message(trig: Trig) -> Option<Seq<u8>> {
    match trig.note {
        Some(note) => match spec_parse_note(note) {
            Ok(pitch) => Some(seq![(NOTE_OFF + channel_of(trig)) as u8, pitch, 0u8]),
            Err(_) => None,
        },
        None => None,
    }
}

/// Semitones above C of a pitch class.
fn semitone_offset(value: NoteValue) -> (r: Option<i64>)
    ensures
        match semitone_of(value) {
            Some(k) => r == Some(k as i64),
            None => r is None,
        },
{
    match value {
        NoteValue::UnknownNote => None,
        NoteValue::C => Some(0),
        NoteValue::CSharp => Some(1),
        NoteValue::D => Some(2),
        NoteValue::DSharp => Some(3),
        NoteValue::E => Some(4),
        NoteValue::F => Some(5),
        NoteValue::FSharp => Some(6),
        NoteValue::G => Some(7),
        NoteValue::GSharp => Some(8),
        NoteValue::A => Some(9),
        NoteValue::ASharp => Some(10),
        NoteValue::B => Some(11),
    }
}

/// The MIDI pitch of `note`: `(octave + 1) * 12 + semitone`, rejected when
/// the value is unknown or the pitch falls outside `0..=127`.
pub fn parse_note_to_midi(note: &Note) -> (r: Result<u8, MidiNoteError>)
    ensures
        r == spec_parse_note(*note),
{
    let semitone = match semitone_offset(note.value) {
        Some(k) => k,
        None => return Err(MidiNoteError::InvalidNoteValue),
    };
    let midi_note: i64 = (note.octave as i64 + 1) * 12 + semitone;
    if midi_note < 0 || midi_note > 127 {
        return Err(MidiNoteError::OutOfRange { midi_note });
    }
    Ok(midi_note as u8)
}

/// The printable name of a pitch class.
pub fn note_value_to_string(value: NoteValue) -> (r: &'static str)
    ensures
        r@ == note_name(value),
{
    match value {
        NoteValue::UnknownNote => "?",
        NoteValue::C => "C",
        NoteValue::CSharp => "C#",
        NoteValue::D => "D",
        NoteValue::DSharp => "D#",
        NoteValue::E => "E",
        NoteValue::F => "F",
        NoteValue::FSharp => "F#",
        NoteValue::G => "G",
        NoteValue::GSharp => "G#",
        NoteValue::A => "A",
        NoteValue::ASharp => "A#",
        NoteValue::B => "B",
    }
}

/// The status byte `base | channel` for the trig's track.
fn status_byte(base: u8, trig: &Trig) -> (r: u8)
    requires
        base == NOTE_ON || base == NOTE_OFF,
    ensures
        r == base + channel_of(*trig),
{
    let channel: u8 = (trig.track % CHANNELS) as u8;
    assert(base | channel == base + channel) by (bit_vector)
        requires
            base == 0x90u8 || base == 0x80u8,
            channel < 16,
    ;
    base | channel
}

/// The note-on message for a trig, or none for a rest or an unplayable note.
pub fn note_on_message(trig: &Trig) -> (r: Option<[u8; 3]>)
    ensures
        match spec_note_on_message(*trig) {
            Some(m) => r is Some && r->0@ == m,
            None => r is None,
        },
{
    match &trig.note {
        Some(note) => match parse_note_to_midi(note) {
            Ok(pitch) => {
                let velocity: u8 = (note.velocity % 256) as u8;
                let m = [status_byte(NOTE_ON, trig), pitch, velocity];
                assert(m@ =~= spec_note_on_message(*trig)->0);
                Some(m)
            },
            Err(_) => None,
        },
        None => None,
    }
}

/// The note-off message for a trig, or none for a rest or an unplayable note.
pub fn note_off_message(trig: &Trig) -> (r: Option<[u8; 3]>)
    ensures
        match spec_note_off_message(*trig) {
            Some(m) => r is Some && r->0@ == m,
            None => r is None,
        },
{
    match &trig.note {
        Some(note) => match parse_note_to_midi(note) {
            Ok(pitch) => {
                let m = [status_byte(NOTE_OFF, trig), pitch, 0u8];
                assert(m@ =~= spec_note_off_message(*trig)->0);
                Some(m)
            },
            Err(_) => None,
        },
        None => None,
    }
}

} // verus!
