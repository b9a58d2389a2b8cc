//! The control façade's bookkeeping: the status mirror that callers query,
//! the staged (cued) pattern, and the decisions behind cue, start, stop and
//! swap. The caller holds a `SequencerState` behind a lock, hands the engine
//! the commands these functions return, and reports a failed delivery with
//! `delivery_result`.

use vstd::prelude::*;
use crate::pattern::{Sequence, SequenceView};

verus! {

/// The ways a control operation fails.
#[derive(Clone, Debug, PartialEq, Eq)]
pub enum SequencerError {
    /// The playback engine was never started.
    PlaybackNotInitialized,
    /// The engine's command channel is closed.
    CommandSendFailed,
    /// `start` was asked for with no pattern staged.
    NoSequenceCued,
    /// Anything else, described in words.
    Other(String),
}

/// A command for the playback engine.
#[derive(Debug)]
pub enum PlaybackCommand {
    /// Adopt the pattern, restart from step zero and play.
    Start(Sequence),
    /// Stop playing and forget pending note releases.
    Stop,
    /// Replace the pattern in place, keeping the position where it fits.
    Swap(Sequence),
    /// End the playback loop.
    Shutdown,
}

impl PlaybackCommand {
    /// The pattern a command carries is playable.
    pub open spec fn well_formed(&self) -> bool {
        match self {
            PlaybackCommand::Start(s) => s.well_formed(),
            PlaybackCommand::Swap(s) => s.well_formed(),
            _ => true,
        }
    }
}

/// A success flag with the operation's data on success.
#[derive(Clone, Debug)]
pub struct OperationResult<T> {
    pub success: bool,
    pub data: Option<T>,
}

/// What `cue` reports.
#[derive(Clone, Copy, Debug, PartialEq, Eq, Structural)]
pub struct CueMetadata {
    /// A pattern was already staged and has been replaced.
    pub replaced_existing: bool,
    /// Steps until the staged pattern takes over at the loop boundary.
    pub remaining_steps: u32,
}

/// What `swap` reports.
#[derive(Clone, Copy, Debug, PartialEq, Eq, Structural)]
pub struct SwapMetadata {
    /// A pattern was current when the swap was asked for.
    pub replaced_existing: bool,
}

/// What `stop` reports.
#[derive(Clone, Copy, Debug, PartialEq, Eq, Structural)]
pub struct StopMetadata {
    /// The trig count of the pattern that was current, if any.
    pub trig_count: Option<usize>,
}

pub type CueResult = OperationResult<CueMetadata>;

pub type StartResult = OperationResult<()>;

pub type StopResult = OperationResult<StopMetadata>;

pub type SwapResult = OperationResult<SwapMetadata>;

impl<T> OperationResult<T> {
    /// A success carrying `data`.
    pub fn success(data: T) -> (r: Self)
        ensures
            r.success,
            r.data == Some(data),
    {
        OperationResult { success: true, data: Some(data) }
    }

    /// A success with nothing to report.
    pub fn success_empty() -> (r: OperationResult<()>)
        ensures
            r.success,
            r.data == Some(()),
    {
        OperationResult { success: true, data: Some(()) }
    }

    /// A failure; it carries no data.
    pub fn failure() -> (r: Self)
        ensures
            !r.success,
            r.data is None,
    {
        OperationResult { success: false, data: None }
    }

    /// Whether the operation succeeded.
    pub fn is_success(&self) -> (r: bool)
        ensures
            r == self.success,
    {
        self.success
    }

    /// Whether the operation failed.
    pub fn is_failure(&self) -> (r: bool)
        ensures
            r == !self.success,
    {
        !self.success
    }
}

/// The outcome of an operation whose command was handed to the engine's
/// channel: its data if the command went out, `CommandSendFailed` otherwise.
pub fn delivery_result<T>(sent: bool, data: T) -> (r: Result<T, SequencerError>)
    ensures
        sent ==> r == Ok::<T, SequencerError>(data),
        !sent ==> r == Err::<T, SequencerError>(SequencerError::CommandSendFailed),
{
    if sent {
        Ok(data)
    } else {
        Err(SequencerError::CommandSendFailed)
    }
}

/// The mathematical value of the status mirror.
pub struct StatusView {
    /// Length and trig count of the engine's current pattern.
    pub current: Option<(u32, nat)>,
    /// The staged pattern awaiting promotion.
    pub cued: Option<SequenceView>,
    pub playing: bool,
    pub step: u32,
}

impl StatusView {
    /// The step lies inside the current pattern, and is zero without one;
    /// a staged pattern is playable.
    pub open spec fn well_formed(self) -> bool {
        &&& match self.current {
            Some((len, _)) => self.step < len,
            None => self.step == 0,
        }
        &&& (self.cued matches Some(c) ==> c.well_formed())
    }
}

/// Steps left before a pattern cued now would take over: the rest of the
/// current pattern while playing, else the length of the cued pattern itself.
pub open spec fn remaining_steps_of(st: StatusView, cued: SequenceView) -> u32 {
    if st.playing {
        match st.current {
            Some((len, _)) => (len - st.step) as u32,
            None => 0,
        }
    } else {
        cued.sequence_length
    }
}

/// The report of a successful cue.
pub open spec fn cue_metadata(st: StatusView, cued: SequenceView) -> CueMetadata {
    CueMetadata {
        replaced_existing: st.cued is Some,
        remaining_steps: remaining_steps_of(st, cued),
    }
}

/// The mirror after `cued` was staged.
pub open spec fn after_cue(st: StatusView, cued: SequenceView) -> StatusView {
    StatusView { cued: Some(cued), ..st }
}

/// The mirror after `start` took the staged pattern.
pub open spec fn after_start(st: StatusView) -> StatusView {
    StatusView { cued: None, ..st }
}

/// The mirror after the engine published its state.
pub open spec fn after_publish(
    st: StatusView,
    playing: bool,
    step: u32,
    current: Option<(u32, nat)>,
) -> StatusView {
    StatusView { current, playing, step, ..st }
}

/// Cueing `first` and then `second` before any start reports on the second
/// cue that a staged pattern was replaced, and leaves only `second` staged
/// for the next start to take.
pub proof fn lemma_second_cue_replaces(st: StatusView, first: SequenceView, second: SequenceView)
    ensures
        cue_metadata(after_cue(st, first), second).replaced_existing,
        after_cue(after_cue(st, first), second).cued == Some(second),
{
}

/// The status mirror: a copy of the engine's state for callers to query,
/// and the pattern staged by `cue`. Only the engine writes the copied part.
pub struct SequencerState {
    current_sequence: Option<(u32, usize)>,
    cued_sequence: Option<Sequence>,
    playing: bool,
    current_step: u32,
}

impl View for SequencerState {
    type V = StatusView;

    closed spec fn view(&self) -> StatusView {
        StatusView {
            current: match self.current_sequence {
                Some((len, count)) => Some((len, count as nat)),
                None => None,
            },
            cued: match self.cued_sequence {
                Some(s) => Some(s@),
                None => None,
            },
            playing: self.playing,
            step: self.current_step,
        }
    }
}

impl SequencerState {
    /// The mirror is consistent.
    pub open spec fn well_formed(&self) -> bool {
        self@.well_formed()
    }

    /// Nothing playing, nothing staged.
    pub fn new() -> (r: SequencerState)
        ensures
            r@.current is None,
            r@.cued is None,
            !r@.playing,
            r@.step == 0,
            r.well_formed(),
    {
        SequencerState { current_sequence: None, cued_sequence: None, playing: false, current_step: 0 }
    }

    /// Whether the engine was playing when it last published.
    pub fn is_playing(&self) -> (r: bool)
        ensures
            r == self@.playing,
    {
        self.playing
    }

    /// The engine's step when it last published.
    pub fn current_step(&self) -> (r: u32)
        ensures
            r == self@.step,
    {
        self.current_step
    }

    /// Length and trig count of the engine's current pattern.
    pub fn current_sequence_info(&self) -> (r: Option<(u32, usize)>)
        ensures
            match r {
                Some((len, count)) => self@.current == Some((len, count as nat)),
                None => self@.current is None,
            },
    {
        self.current_sequence
    }

    /// Whether a pattern is staged.
    pub fn has_cued(&self) -> (r: bool)
        ensures
            r == self@.cued is Some,
    {
        self.cued_sequence.is_some()
    }

    /// Stages `sequence`, replacing any staged pattern, and reports whether
    /// one was replaced and how many steps remain before it takes over.
    /// Playback does not change: the engine promotes the staged pattern at
    /// its next loop boundary, or `start` promotes it at once.
    pub fn cue_sequence(&mut self, sequence: Sequence, initialized: bool) -> (r: Result<
        CueMetadata,
        SequencerError,
    >)
        requires
            old(self).well_formed(),
        ensures
            final(self).well_formed(),
            !initialized ==> r == Err::<CueMetadata, SequencerError>(
                SequencerError::PlaybackNotInitialized,
            ) && final(self)@ == old(self)@,
            initialized && !sequence.well_formed() ==> r is Err && r->Err_0 is Other
                && final(self)@ == old(self)@,
            initialized && sequence.well_formed() ==> r == Ok::<CueMetadata, SequencerError>(
                cue_metadata(old(self)@, sequence@),
            ) && final(self)@ == after_cue(old(self)@, sequence@),
    {
        if !initialized {
            return Err(SequencerError::PlaybackNotInitialized);
        }
        if sequence.sequence_length == 0 {
            return Err(SequencerError::Other("a sequence needs at least one step".to_owned()));
        }
        let replaced_existing = self.cued_sequence.is_some();
        let remaining_steps = if self.playing {
            match self.current_sequence {
                Some((len, _)) => len - self.current_step,
                None => 0,
            }
        } else {
            sequence.sequence_length
        };
        self.cued_sequence = Some(sequence);
        Ok(CueMetadata { replaced_existing, remaining_steps })
    }

    /// Takes the staged pattern and returns the command that starts it.
    /// Fails, changing nothing, when no pattern is staged or the engine was
    /// never started.
    pub fn start_sequence(&mut self, initialized: bool) -> (r: Result<
        PlaybackCommand,
        SequencerError,
    >)
        requires
            old(self).well_formed(),
        ensures
            final(self).well_formed(),
            old(self)@.cued is None ==> r == Err::<PlaybackCommand, SequencerError>(
                SequencerError::NoSequenceCued,
            ) && final(self)@ == old(self)@,
            old(self)@.cued is Some && !initialized ==> r == Err::<
                PlaybackCommand,
                SequencerError,
            >(SequencerError::PlaybackNotInitialized) && final(self)@ == old(self)@,
            old(self)@.cued is Some && initialized ==> r is Ok && r->Ok_0 is Start
                && Some(r->Ok_0->Start_0@) == old(self)@.cued && r->Ok_0.well_formed()
                && final(self)@ == after_start(old(self)@),
    {
        if self.cued_sequence.is_none() {
            return Err(SequencerError::NoSequenceCued);
        }
        if !initialized {
            return Err(SequencerError::PlaybackNotInitialized);
        }
        match self.cued_sequence.take() {
            Some(s) => Ok(PlaybackCommand::Start(s)),
            None => Err(SequencerError::NoSequenceCued),
        }
    }

    /// The command that stops playback, with the trig count of the current
    /// pattern.
    pub fn stop_sequence(&self, initialized: bool) -> (r: Result<
        (PlaybackCommand, StopMetadata),
        SequencerError,
    >)
        ensures
            !initialized ==> r == Err::<(PlaybackCommand, StopMetadata), SequencerError>(
                SequencerError::PlaybackNotInitialized,
            ),
            initialized ==> r is Ok && r->Ok_0.0 is Stop && match self@.current {
                Some((_, count)) => r->Ok_0.1.trig_count == Some(count as usize),
                None => r->Ok_0.1.trig_count is None,
            },
    {
        if !initialized {
            return Err(SequencerError::PlaybackNotInitialized);
        }
        let trig_count = match self.current_sequence {
            Some((_, count)) => Some(count),
            None => None,
        };
        Ok((PlaybackCommand::Stop, StopMetadata { trig_count }))
    }

    /// The command that swaps `sequence` in at once, bypassing the staged
    /// pattern, and whether a pattern was current.
    pub fn swap_sequence(&self, sequence: Sequence, initialized: bool) -> (r: Result<
        (PlaybackCommand, SwapMetadata),
        SequencerError,
    >)
        ensures
            !initialized ==> r == Err::<(PlaybackCommand, SwapMetadata), SequencerError>(
                SequencerError::PlaybackNotInitialized,
            ),
            initialized && !sequence.well_formed() ==> r is Err && (r->Err_0 is Other),
            initialized && sequence.well_formed() ==> r is Ok && r->Ok_0.0 is Swap
                && r->Ok_0.0->Swap_0@ == sequence@ && r->Ok_0.0.well_formed()
                && r->Ok_0.1 == (SwapMetadata { replaced_existing: self@.current is Some }),
    {
        if !initialized {
            return Err(SequencerError::PlaybackNotInitialized);
        }
        if sequence.sequence_length == 0 {
            return Err(SequencerError::Other("a sequence needs at least one step".to_owned()));
        }
        let replaced_existing = self.current_sequence.is_some();
        Ok((PlaybackCommand::Swap(sequence), SwapMetadata { replaced_existing }))
    }

    /// Copies the engine's state into the mirror.
    pub(crate) fn publish(&mut self, playing: bool, step: u32, current: Option<(u32, usize)>)
        requires
            match current {
                Some((len, _)) => step < len,
                None => step == 0,
            },
            old(self).well_formed(),
        ensures
            final(self).well_formed(),
            final(self)@ == after_publish(
                old(self)@,
                playing,
                step,
                match current {
                    Some((len, count)) => Some((len, count as nat)),
                    None => None,
                },
            ),
    {
        self.playing = playing;
        self.current_step = step;
        self.current_sequence = current;
    }

    /// Takes the staged pattern, leaving none.
    pub(crate) fn take_cued(&mut self) -> (r: Option<Sequence>)
        ensures
            match r {
                Some(s) => old(self)@.cued == Some(s@),
                None => old(self)@.cued is None,
            },
            final(self)@ == after_start(old(self)@),
            old(self).well_formed() ==> final(self).well_formed(),
    {
        self.cued_sequence.take()
    }
}

} // verus!
