//! The pattern model: notes, trigs and sequences.

use vstd::prelude::*;

verus! {

/// Number of fractional units in one step, the resolution of a trig's
/// `offset` and `length` (hundredths of a step).
pub const STEP_FRACTION: u32 = 100;

/// The twelve chromatic pitch classes and a sentinel for an unknown value.
#[derive(Clone, Copy, Debug, PartialEq, Eq, Structural)]
pub enum NoteValue {
    UnknownNote,
    C,
    CSharp,
    D,
    DSharp,
    E,
    F,
    FSharp,
    G,
    GSharp,
    A,
    ASharp,
    B,
}

/// A pitch to sound, with its intensity.
#[derive(Clone, Copy, Debug, PartialEq, Eq, Structural)]
pub struct Note {
    pub octave: i32,
    pub value: NoteValue,
    pub velocity: u32,
}

/// A rhythmic subdivision; the denominator is the number of steps in a whole
/// note (16 gives sixteenth-note steps).
#[derive(Clone, Copy, Debug, PartialEq, Eq, Structural)]
pub struct Subdivision {
    pub numerator: u32,
    pub denominator: u32,
}

/// One event slot of a track at a step. A trig without a note is a rest.
///
/// `offset` and `length` are measured in hundredths of a step
/// (`STEP_FRACTION` units); `length` is rounded up to whole steps when the
/// release of the note is scheduled, and `offset` is carried unchanged.
#[derive(Clone, Copy, Debug, PartialEq, Eq, Structural)]
pub struct Trig {
    pub note: Option<Note>,
    pub track: u32,
    pub step: u32,
    pub offset: i32,
    pub length: u32,
}

/// A pattern: a cyclic grid of trigs with its tempo and subdivision.
#[derive(Clone, Debug, PartialEq, Eq)]
pub struct Sequence {
    pub sequence_length: u32,
    pub bpm: u32,
    pub trig_subdivision: Option<Subdivision>,
    pub trigs: Vec<Trig>,
}

/// The mathematical value of a `Sequence`: its trigs as a sequence.
pub struct SequenceView {
    pub sequence_length: u32,
    pub bpm: u32,
    pub trig_subdivision: Option<Subdivision>,
    pub trigs: Seq<Trig>,
}

impl View for Sequence {
    type V = SequenceView;

    open spec fn view(&self) -> SequenceView {
        SequenceView {
            sequence_length: self.sequence_length,
            bpm: self.bpm,
            trig_subdivision: self.trig_subdivision,
            trigs: self.trigs@,
        }
    }
}

/// Whole steps covered by a length of `length` hundredths of a step, rounded up.
pub open spec fn ceil_steps(length: u32) -> nat {
    ((length as nat + (STEP_FRACTION - 1) as nat) / STEP_FRACTION as nat) as nat
}

/// The trigs of `trigs` that stand on step `step`, in their order.
pub open spec fn trigs_on_step(trigs: Seq<Trig>, step: u32) -> Seq<Trig>
    decreases trigs.len(),
{
    if trigs.len() == 0 {
        Seq::empty()
    } else if trigs.last().step == step {
        trigs_on_step(trigs.drop_last(), step).push(trigs.last())
    } else {
        trigs_on_step(trigs.drop_last(), step)
    }
}

impl SequenceView {
    /// A pattern the engine can play: it has at least one step.
    pub open spec fn well_formed(self) -> bool {
        self.sequence_length > 0
    }
}

impl Trig {
    /// Whole steps between the trig's note-on and its note-off.
    pub open spec fn spec_release_steps(self) -> nat {
        ceil_steps(self.length)
    }

    /// The length of the trig rounded up to whole steps.
    pub fn release_steps(&self) -> (r: u32)
        ensures
            r == self.spec_release_steps(),
    {
        let whole = self.length / STEP_FRACTION;
        if self.length % STEP_FRACTION == 0 {
            whole
        } else {
            whole + 1
        }
    }
}

impl Sequence {
    /// A pattern the engine can play: it has at least one step.
    pub open spec fn well_formed(&self) -> bool {
        self@.well_formed()
    }
}

} // verus!
