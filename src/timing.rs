//! Step timing: how long one step of a pattern lasts.

use vstd::prelude::*;
use vstd::arithmetic::div_mod::lemma_div_is_ordered_by_denominator;
use vstd::arithmetic::mul::lemma_mul_inequality;
use crate::pattern::{Sequence, SequenceView, Subdivision};

verus! {

/// Slowest tempo the engine plays, in beats per minute.
pub const MIN_BPM: u32 = 60;

/// Fastest tempo the engine plays, in beats per minute.
pub const MAX_BPM: u32 = 300;

/// Steps in a whole note when a pattern names no subdivision.
pub const DEFAULT_DENOMINATOR: u32 = 16;

/// `tempo` clamped to `[MIN_BPM, MAX_BPM]`.
pub open spec fn clamped_bpm(tempo: u32) -> nat {
    if tempo < MIN_BPM {
        MIN_BPM as nat
    } else if tempo > MAX_BPM {
        MAX_BPM as nat
    } else {
        tempo as nat
    }
}

/// The subdivision's denominator, or the default when there is none.
pub open spec fn denominator_of(subdivision: Option<Subdivision>) -> nat {
    match subdivision {
        Some(s) => s.denominator as nat,
        None => DEFAULT_DENOMINATOR as nat,
    }
}

/// Milliseconds per step at `tempo` with `denominator` steps per whole note,
/// truncated: `1000 / ((bpm / 60) * (denominator / 4))`, which is
/// `240000 / (bpm * denominator)`. A zero denominator never advances: its
/// duration is the largest `u64`.
pub open spec fn step_duration_of(tempo: u32, denominator: nat) -> nat {
    if denominator == 0 {
        u64::MAX as nat
    } else {
        240000nat / (clamped_bpm(tempo) * denominator)
    }
}

/// The step duration of a pattern, in milliseconds.
pub open spec fn spec_step_duration(s: SequenceView) -> nat {
    step_duration_of(s.bpm, denominator_of(s.trig_subdivision))
}

/// Milliseconds per step of `sequence`: the tempo is clamped to
/// `[MIN_BPM, MAX_BPM]`, the denominator defaults to 16, a quarter note is
/// one beat, and the result is truncated to whole milliseconds.
pub fn calculate_step_duration(sequence: &Sequence) -> (ms: u64)
    ensures
        ms == spec_step_duration(sequence@),
{
    let tempo: u64 = if sequence.bpm < MIN_BPM {
        MIN_BPM as u64
    } else if sequence.bpm > MAX_BPM {
        MAX_BPM as u64
    } else {
        sequence.bpm as u64
    };
    let denominator: u64 = match sequence.trig_subdivision {
        Some(s) => s.denominator as u64,
        None => DEFAULT_DENOMINATOR as u64,
    };
    if denominator == 0 {
        u64::MAX
    } else {
        assert(tempo * denominator <= 300 * 0xffff_ffff) by (nonlinear_arith)
            requires
                tempo <= 300,
                denominator <= 0xffff_ffff,
        ;
        assert(tempo * denominator >= 1) by (nonlinear_arith)
            requires
                tempo >= 1,
                denominator >= 1,
        ;
        240000 / (tempo * denominator)
    }
}

/// The step duration never grows as the tempo rises, and a tempo outside
/// `[MIN_BPM, MAX_BPM]` lasts as long as the nearest bound.
pub proof fn lemma_step_duration_tempo(s: SequenceView, slower: u32, faster: u32)
    requires
        slower <= faster,
    ensures
        step_duration_of(slower, denominator_of(s.trig_subdivision))
            >= step_duration_of(faster, denominator_of(s.trig_subdivision)),
        slower < MIN_BPM ==> step_duration_of(slower, denominator_of(s.trig_subdivision))
            == step_duration_of(MIN_BPM, denominator_of(s.trig_subdivision)),
        faster > MAX_BPM ==> step_duration_of(faster, denominator_of(s.trig_subdivision))
            == step_duration_of(MAX_BPM, denominator_of(s.trig_subdivision)),
{
    let d = denominator_of(s.trig_subdivision);
    if d > 0 {
        let a = clamped_bpm(slower);
        let b = clamped_bpm(faster);
        lemma_mul_inequality(a as int, b as int, d as int);
        assert(a * d >= 1) by (nonlinear_arith)
            requires
                a >= 1,
                d >= 1,
        ;
        lemma_div_is_ordered_by_denominator(240000, (a * d) as int, (b * d) as int);
    }
}

} // verus!
