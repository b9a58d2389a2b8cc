//! A step-sequencer engine: a cyclic pattern of note triggers played at a
//! tempo, with deferred note releases and quantized pattern changes.
//!
//! The crate holds the verified core: the pattern model, the step timing,
//! MIDI message encoding, the note-off scheduler, the playback engine's state
//! machine and the bookkeeping of the control façade. Threads, channels,
//! clocks and device I/O stay with the caller, which feeds the engine plain
//! values (commands and timestamps in microseconds) and performs what it
//! hands back.

pub mod pattern;
pub mod timing;
pub mod midi;
pub mod scheduler;
pub mod control;
pub mod engine;

pub use control::{
    CueMetadata, CueResult, OperationResult, PlaybackCommand, SequencerError, SequencerState,
    StartResult, StopMetadata, StopResult, SwapMetadata, SwapResult, delivery_result,
};
pub use engine::{Engine, Iteration, StepEvents, StepHandler, dispatch};
pub use midi::{MidiNoteError, note_off_message, note_on_message, note_value_to_string, parse_note_to_midi};
pub use pattern::{Note, NoteValue, Sequence, Subdivision, Trig, STEP_FRACTION};
pub use scheduler::{PendingRelease, PendingReleases};
pub use timing::calculate_step_duration;
