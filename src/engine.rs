//! The playback engine: the state machine that decides what plays now.
//!
//! The engine owns the authoritative playback state. Each iteration of the
//! caller's timing loop hands it at most one command and the current time in
//! microseconds; the engine applies the command, plays a step when one is
//! due, promotes a staged pattern at the loop boundary, and publishes its
//! state to the status mirror. The caller performs the returned note events.

use vstd::prelude::*;
use vstd::arithmetic::div_mod::{lemma_add_mod_noop, lemma_small_mod};
use crate::control::{
    PlaybackCommand, SequencerState, StatusView, after_cue, after_publish, after_start,
};
use crate::pattern::{Sequence, SequenceView, Trig, ceil_steps, trigs_on_step};
use crate::scheduler::{PendingRelease, PendingReleases, due_trigs, not_due};
use crate::timing::{calculate_step_duration, spec_step_duration};

verus! {

/// Receives the trigs entering and leaving their sounding state.
pub trait StepHandler: Send + Sync + 'static {
    /// The trigs of a step that has just begun; empty for a silent step.
    fn handle_notes_on(&self, trigs: Vec<&Trig>);

    /// The trigs whose notes are released now.
    fn handle_notes_off(&self, trigs: Vec<&Trig>);
}

/// Microseconds in a millisecond.
pub const MICROS_PER_MILLI: u64 = 1000;

/// The length of one step of `s` in microseconds, saturating at the largest `u64`.
pub open spec fn step_period(s: SequenceView) -> nat {
    if spec_step_duration(s) * MICROS_PER_MILLI > u64::MAX {
        u64::MAX as nat
    } else {
        (spec_step_duration(s) * MICROS_PER_MILLI) as nat
    }
}

/// The instant at which a trig played at `now` is released: `now` plus its
/// length in whole steps, saturating at the largest `u64`.
pub open spec fn release_at(now: u64, period: nat, trig: Trig) -> u64 {
    if now + period * ceil_steps(trig.length) > u64::MAX {
        u64::MAX
    } else {
        (now + period * ceil_steps(trig.length)) as u64
    }
}

/// The releases scheduled for the trigs of a step played at `now`: one for
/// each trig that carries a note, in order.
pub open spec fn releases_for(trigs: Seq<Trig>, now: u64, period: nat) -> Seq<PendingRelease>
    decreases trigs.len(),
{
    if trigs.len() == 0 {
        Seq::empty()
    } else if trigs.last().note is Some {
        releases_for(trigs.drop_last(), now, period).push(
            PendingRelease { at: release_at(now, period, trigs.last()), trig: trigs.last() },
        )
    } else {
        releases_for(trigs.drop_last(), now, period)
    }
}

/// The step after `step` in a pattern of `len` steps.
pub open spec fn next_step(step: u32, len: u32) -> u32 {
    ((step + 1) % (len as int)) as u32
}

/// The mathematical value of the engine.
pub struct EngineView {
    pub current: Option<SequenceView>,
    pub step: u32,
    pub playing: bool,
    /// When the last step began (microseconds).
    pub last_step_time: u64,
    pub pending: Seq<PendingRelease>,
}

impl EngineView {
    /// A current pattern is playable and the step lies inside it; without
    /// one the engine rests at step zero.
    pub open spec fn well_formed(self) -> bool {
        match self.current {
            Some(s) => s.well_formed() && self.step < s.sequence_length,
            None => self.step == 0 && !self.playing,
        }
    }

    /// Time since the last step began, zero if `now` lies before it.
    pub open spec fn elapsed(self, now: u64) -> nat {
        if now >= self.last_step_time {
            (now - self.last_step_time) as nat
        } else {
            0
        }
    }

    /// A step is due: the engine plays a pattern and a whole step has passed.
    pub open spec fn is_due(self, now: u64) -> bool {
        &&& self.playing
        &&& self.current is Some
        &&& self.elapsed(now) >= step_period(self.current->0)
    }

    /// Length and trig count of the current pattern.
    pub open spec fn info(self) -> Option<(u32, nat)> {
        match self.current {
            Some(s) => Some((s.sequence_length, s.trigs.len())),
            None => None,
        }
    }
}

/// The engine after a command.
pub open spec fn after_command(e: EngineView, command: PlaybackCommand, now: u64) -> EngineView {
    match command {
        PlaybackCommand::Start(s) => EngineView {
            current: Some(s@),
            step: 0,
            playing: true,
            last_step_time: now,
            ..e
        },
        PlaybackCommand::Stop => EngineView { playing: false, pending: Seq::empty(), ..e },
        PlaybackCommand::Swap(s) => if e.step < s.sequence_length {
            EngineView { current: Some(s@), ..e }
        } else {
            EngineView { current: Some(s@), step: 0, last_step_time: now, ..e }
        },
        PlaybackCommand::Shutdown => e,
    }
}

/// The engine after playing its current step at `now`: due releases are
/// gone, the notes of the step are scheduled for release, and the step
/// advances cyclically.
pub open spec fn after_step(e: EngineView, now: u64) -> EngineView
    recommends
        e.current is Some,
{
    let s = e.current->0;
    EngineView {
        step: next_step(e.step, s.sequence_length),
        last_step_time: now,
        pending: not_due(e.pending, now) + releases_for(
            trigs_on_step(s.trigs, e.step),
            now,
            step_period(s),
        ),
        ..e
    }
}

/// The engine after the optional command of an iteration.
pub open spec fn command_applied(
    e: EngineView,
    command: Option<PlaybackCommand>,
    now: u64,
) -> EngineView {
    match command {
        Some(c) => after_command(e, c, now),
        None => e,
    }
}

/// The engine after playing a step if one is due.
pub open spec fn stepped(e: EngineView, now: u64) -> EngineView {
    if e.is_due(now) {
        after_step(e, now)
    } else {
        e
    }
}

/// Whether an iteration promotes the staged pattern: it played a step that
/// wrapped the pattern to step zero while a pattern was staged.
pub open spec fn promotes(
    e: EngineView,
    command: Option<PlaybackCommand>,
    now: u64,
    st: StatusView,
) -> bool {
    let e1 = command_applied(e, command, now);
    &&& e1.is_due(now)
    &&& stepped(e1, now).step == 0
    &&& st.cued is Some
}

/// The engine after an iteration that does not shut it down.
pub open spec fn engine_after_iteration(
    e: EngineView,
    command: Option<PlaybackCommand>,
    now: u64,
    st: StatusView,
) -> EngineView {
    let e2 = stepped(command_applied(e, command, now), now);
    if promotes(e, command, now, st) {
        EngineView { current: st.cued, ..e2 }
    } else {
        e2
    }
}

/// The status mirror after an iteration that does not shut the engine down.
pub open spec fn status_after_iteration(
    e: EngineView,
    command: Option<PlaybackCommand>,
    now: u64,
    st: StatusView,
) -> StatusView {
    let e3 = engine_after_iteration(e, command, now, st);
    let st1 = if promotes(e, command, now, st) {
        after_start(st)
    } else {
        st
    };
    after_publish(st1, e3.playing, e3.step, e3.info())
}

/// The note events of one played step.
#[derive(Debug)]
pub struct StepEvents {
    /// The step that was played.
    pub step: u32,
    /// Trigs whose release fell due, in the order they were scheduled.
    pub notes_off: Vec<Trig>,
    /// The trigs of the step, in pattern order.
    pub notes_on: Vec<Trig>,
}

/// What one iteration of the playback loop did.
#[derive(Debug)]
pub enum Iteration {
    /// The engine was told to shut down; the loop ends.
    Shutdown,
    /// No step was due.
    Idle,
    /// A step was played.
    Stepped(StepEvents),
}

/// The authoritative playback state.
pub struct Engine {
    current_sequence: Option<Sequence>,
    current_step: u32,
    playing: bool,
    last_step_time: u64,
    note_offs: PendingReleases,
}

impl View for Engine {
    type V = EngineView;

    closed spec fn view(&self) -> EngineView {
        EngineView {
            current: match self.current_sequence {
                Some(s) => Some(s@),
                None => None,
            },
            step: self.current_step,
            playing: self.playing,
            last_step_time: self.last_step_time,
            pending: self.note_offs@,
        }
    }
}

/// The length of one step of `sequence` in microseconds.
fn step_period_of(sequence: &Sequence) -> (r: u64)
    ensures
        r == step_period(sequence@),
{
    let ms = calculate_step_duration(sequence);
    if ms > u64::MAX / MICROS_PER_MILLI {
        u64::MAX
    } else {
        ms * MICROS_PER_MILLI
    }
}

/// The instant at which `trig`, played at `now`, is released.
fn release_instant(now: u64, period: u64, trig: &Trig) -> (r: u64)
    ensures
        r == release_at(now, period as nat, *trig),
{
    let steps = trig.release_steps();
    assert(period as u128 * steps as u128 <= 0xffff_ffff_ffff_ffff * 0xffff_ffff) by (nonlinear_arith)
        requires
            period <= 0xffff_ffff_ffff_ffffu64,
            steps <= 0xffff_ffffu32,
    ;
    let at: u128 = now as u128 + period as u128 * steps as u128;
    if at > u64::MAX as u128 {
        u64::MAX
    } else {
        at as u64
    }
}

/// The trigs of `trigs` on `step`, scheduling the release of each one that
/// carries a note.
fn collect_step(
    trigs: &Vec<Trig>,
    step: u32,
    now: u64,
    period: u64,
    releases: &mut PendingReleases,
) -> (on: Vec<Trig>)
    ensures
        on@ == trigs_on_step(trigs@, step),
        final(releases)@ == old(releases)@ + releases_for(
            trigs_on_step(trigs@, step),
            now,
            period as nat,
        ),
{
    let mut on: Vec<Trig> = Vec::new();
    let n = trigs.len();
    let mut i: usize = 0;
    assert(old(releases)@ + releases_for(Seq::empty(), now, period as nat) =~= old(releases)@);
    while i < n
        invariant
            n == trigs@.len(),
            0 <= i <= n,
            on@ == trigs_on_step(trigs@.take(i as int), step),
            releases@ == old(releases)@ + releases_for(on@, now, period as nat),
        decreases n - i,
    {
        let t = trigs[i];
        assert(trigs@.take(i + 1).drop_last() =~= trigs@.take(i as int));
        if t.step == step {
            let ghost before = on@;
            on.push(t);
            assert(on@.drop_last() =~= before);
            if t.note.is_some() {
                let at = release_instant(now, period, &t);
                releases.schedule(at, t);
            }
        }
        i = i + 1;
    }
    assert(trigs@.take(n as int) =~= trigs@);
    on
}

impl Engine {
    /// The engine's state is consistent.
    pub open spec fn well_formed(&self) -> bool {
        self@.well_formed()
    }

    /// An idle engine with nothing pending, its clock started at `now`.
    pub fn new(now: u64) -> (r: Engine)
        ensures
            r@ == (EngineView {
                current: None,
                step: 0,
                playing: false,
                last_step_time: now,
                pending: Seq::empty(),
            }),
            r.well_formed(),
    {
        Engine {
            current_sequence: None,
            current_step: 0,
            playing: false,
            last_step_time: now,
            note_offs: PendingReleases::new(),
        }
    }

    /// Whether the engine is playing.
    pub fn is_playing(&self) -> (r: bool)
        ensures
            r == self@.playing,
    {
        self.playing
    }

    /// The step that plays next.
    pub fn current_step(&self) -> (r: u32)
        ensures
            r == self@.step,
    {
        self.current_step
    }

    /// The current pattern.
    pub fn current_sequence(&self) -> (r: Option<&Sequence>)
        ensures
            match r {
                Some(s) => self@.current == Some(s@),
                None => self@.current is None,
            },
    {
        self.current_sequence.as_ref()
    }

    /// Number of notes awaiting release.
    pub fn pending_releases(&self) -> (r: usize)
        ensures
            r == self@.pending.len(),
    {
        self.note_offs.len()
    }

    /// Length and trig count of the current pattern.
    fn info(&self) -> (r: Option<(u32, usize)>)
        ensures
            match r {
                Some((len, count)) => self@.info() == Some((len, count as nat)),
                None => self@.info() is None,
            },
    {
        match &self.current_sequence {
            Some(s) => Some((s.sequence_length, s.trigs.len())),
            None => None,
        }
    }

    /// Applies a command at `now`; returns false for `Shutdown`, which
    /// changes nothing and ends the loop.
    pub fn apply_command(&mut self, command: PlaybackCommand, now: u64) -> (running: bool)
        requires
            old(self).well_formed(),
            command.well_formed(),
        ensures
            final(self).well_formed(),
            running == !(command is Shutdown),
            final(self)@ == after_command(old(self)@, command, now),
    {
        match command {
            PlaybackCommand::Start(s) => {
                self.current_sequence = Some(s);
                self.current_step = 0;
                self.playing = true;
                self.last_step_time = now;
                true
            },
            PlaybackCommand::Stop => {
                self.playing = false;
                self.note_offs.clear();
                true
            },
            PlaybackCommand::Swap(s) => {
                if self.current_step >= s.sequence_length {
                    self.current_step = 0;
                    self.last_step_time = now;
                }
                self.current_sequence = Some(s);
                true
            },
            PlaybackCommand::Shutdown => false,
        }
    }

    /// Plays the current step if one is due at `now`: emits the releases
    /// that fell due and the trigs of the step, schedules the releases of its
    /// notes, and advances the step.
    pub fn advance(&mut self, now: u64) -> (r: Option<StepEvents>)
        requires
            old(self).well_formed(),
        ensures
            final(self).well_formed(),
            old(self)@.is_due(now) ==> r is Some && final(self)@ == after_step(old(self)@, now)
                && r->0.step == old(self)@.step
                && r->0.notes_off@ == due_trigs(old(self)@.pending, now)
                && r->0.notes_on@ == trigs_on_step(old(self)@.current->0.trigs, old(self)@.step),
            !old(self)@.is_due(now) ==> r is None && final(self)@ == old(self)@,
    {
        if !self.playing {
            return None;
        }
        match &self.current_sequence {
            None => None,
            Some(seq) => {
                let period = step_period_of(seq);
                let elapsed: u64 = if now >= self.last_step_time {
                    now - self.last_step_time
                } else {
                    0
                };
                if elapsed < period {
                    return None;
                }
                let step = self.current_step;
                let notes_off = self.note_offs.drain_due(now);
                let notes_on = collect_step(&seq.trigs, step, now, period, &mut self.note_offs);
                self.current_step = (step + 1) % seq.sequence_length;
                self.last_step_time = now;
                Some(StepEvents { step, notes_off, notes_on })
            },
        }
    }

    /// One iteration of the playback loop at `now`: applies the command if
    /// there is one, plays a step if one is due, promotes the staged pattern
    /// when the step wrapped to zero, and publishes the state to `status`.
    /// `Shutdown` changes nothing.
    pub fn iterate(
        &mut self,
        command: Option<PlaybackCommand>,
        now: u64,
        status: &mut SequencerState,
    ) -> (r: Iteration)
        requires
            old(self).well_formed(),
            old(status).well_formed(),
            command matches Some(c) ==> c.well_formed(),
        ensures
            final(self).well_formed(),
            final(status).well_formed(),
            command matches Some(PlaybackCommand::Shutdown) ==> r is Shutdown
                && final(self)@ == old(self)@ && final(status)@ == old(status)@,
            !(command matches Some(PlaybackCommand::Shutdown)) ==> final(self)@
                == engine_after_iteration(old(self)@, command, now, old(status)@)
                && final(status)@ == status_after_iteration(
                old(self)@,
                command,
                now,
                old(status)@,
            ),
            !(command matches Some(PlaybackCommand::Shutdown)) && !command_applied(
                old(self)@,
                command,
                now,
            ).is_due(now) ==> r is Idle,
            !(command matches Some(PlaybackCommand::Shutdown)) && command_applied(
                old(self)@,
                command,
                now,
            ).is_due(now) ==> r is Stepped && r->0.step == command_applied(
                old(self)@,
                command,
                now,
            ).step && r->0.notes_off@ == due_trigs(
                command_applied(old(self)@, command, now).pending,
                now,
            ) && r->0.notes_on@ == trigs_on_step(
                command_applied(old(self)@, command, now).current->0.trigs,
                command_applied(old(self)@, command, now).step,
            ),
    {
        match command {
            Some(PlaybackCommand::Shutdown) => {
                return Iteration::Shutdown;
            },
            Some(c) => {
                self.apply_command(c, now);
            },
            None => {},
        }
        let events = self.advance(now);
        if events.is_some() && self.current_step == 0 {
            match status.take_cued() {
                Some(next) => {
                    self.current_sequence = Some(next);
                },
                None => {},
            }
        }
        status.publish(self.playing, self.current_step, self.info());
        match events {
            Some(ev) => Iteration::Stepped(ev),
            None => Iteration::Idle,
        }
    }
}

/// The engine after playing one step at each of the instants of `times`, in order.
pub open spec fn after_steps(e: EngineView, times: Seq<u64>) -> EngineView
    decreases times.len(),
{
    if times.len() == 0 {
        e
    } else {
        after_step(after_steps(e, times.drop_last()), times.last())
    }
}

/// Once a pattern is started, the step after `n` played steps is
/// `n mod sequence_length`: it returns to zero exactly every
/// `sequence_length` steps, and the pattern stays current.
pub proof fn lemma_step_cycle(e: EngineView, pattern: Sequence, started: u64, times: Seq<u64>)
    requires
        pattern.well_formed(),
    ensures
        after_steps(after_command(e, PlaybackCommand::Start(pattern), started), times).step
            == times.len() % (pattern.sequence_length as nat),
        after_steps(after_command(e, PlaybackCommand::Start(pattern), started), times).step == 0
            <==> times.len() % (pattern.sequence_length as nat) == 0,
        after_steps(after_command(e, PlaybackCommand::Start(pattern), started), times).current
            == Some(pattern@),
    decreases times.len(),
{
    let len = pattern.sequence_length as int;
    if times.len() > 0 {
        lemma_step_cycle(e, pattern, started, times.drop_last());
        let k = times.drop_last().len() as int;
        lemma_add_mod_noop(k, 1, len);
        if len > 1 {
            lemma_small_mod(1, len as nat);
        }
        assert((k % len + 1) % len == (k + 1) % len) by (nonlinear_arith)
            requires
                ((k % len) + (1int % len)) % len == (k + 1) % len,
                len == 1 || 1int % len == 1,
                len >= 1,
        ;
    } else {
        lemma_small_mod(0, len as nat);
    }
}

/// A swap keeps the position and the step clock when the position fits in
/// the new pattern; otherwise it restarts at step zero with the clock reset.
pub proof fn lemma_swap_position(e: EngineView, pattern: Sequence, now: u64)
    requires
        e.well_formed(),
        pattern.well_formed(),
    ensures
        after_command(e, PlaybackCommand::Swap(pattern), now).current == Some(pattern@),
        e.step < pattern.sequence_length ==> after_command(
            e,
            PlaybackCommand::Swap(pattern),
            now,
        ).step == e.step && after_command(e, PlaybackCommand::Swap(pattern), now).last_step_time
            == e.last_step_time,
        e.step >= pattern.sequence_length ==> after_command(
            e,
            PlaybackCommand::Swap(pattern),
            now,
        ).step == 0 && after_command(e, PlaybackCommand::Swap(pattern), now).last_step_time
            == now,
        after_command(e, PlaybackCommand::Swap(pattern), now).well_formed(),
{
}

/// Starting a pattern that was just cued makes exactly that pattern current,
/// and the status published by the same iteration reports its length and
/// trig count.
pub proof fn lemma_cue_then_start(st: StatusView, e: EngineView, pattern: Sequence, now: u64)
    requires
        st.well_formed(),
        e.well_formed(),
        pattern.well_formed(),
    ensures
        after_cue(st, pattern@).cued == Some(pattern@),
        engine_after_iteration(
            e,
            Some(PlaybackCommand::Start(pattern)),
            now,
            after_start(after_cue(st, pattern@)),
        ).current == Some(pattern@),
        status_after_iteration(
            e,
            Some(PlaybackCommand::Start(pattern)),
            now,
            after_start(after_cue(st, pattern@)),
        ).current == Some((pattern.sequence_length, pattern@.trigs.len())),
{
}

/// How many times `t` occurs in `s`.
pub open spec fn occurrences(s: Seq<Trig>, t: Trig) -> nat
    decreases s.len(),
{
    if s.len() == 0 {
        0
    } else {
        occurrences(s.drop_last(), t) + if s.last() == t {
            1nat
        } else {
            0nat
        }
    }
}

proof fn lemma_occurrences_on_step(x: Seq<Trig>, step: u32, t: Trig)
    requires
        t.step == step,
    ensures
        occurrences(trigs_on_step(x, step), t) == occurrences(x, t),
    decreases x.len(),
{
    if x.len() > 0 {
        lemma_occurrences_on_step(x.drop_last(), step, t);
        let rest = trigs_on_step(x.drop_last(), step);
        if x.last().step == step {
            assert(rest.push(x.last()).drop_last() =~= rest);
        }
    }
}

proof fn lemma_due_concat(p: Seq<PendingRelease>, q: Seq<PendingRelease>, later: u64)
    ensures
        due_trigs(p + q, later) == due_trigs(p, later) + due_trigs(q, later),
    decreases q.len(),
{
    if q.len() == 0 {
        assert(p + q =~= p);
        assert(due_trigs(p, later) + due_trigs(q, later) =~= due_trigs(p, later));
    } else {
        lemma_due_concat(p, q.drop_last(), later);
        assert((p + q).drop_last() =~= p + q.drop_last());
        assert((p + q).last() == q.last());
        if q.last().at <= later {
            assert(due_trigs(p, later) + due_trigs(q.drop_last(), later).push(q.last().trig)
                =~= (due_trigs(p, later) + due_trigs(q.drop_last(), later)).push(q.last().trig));
        }
    }
}

proof fn lemma_occurrences_concat(a: Seq<Trig>, b: Seq<Trig>, t: Trig)
    ensures
        occurrences(a + b, t) == occurrences(a, t) + occurrences(b, t),
    decreases b.len(),
{
    if b.len() == 0 {
        assert(a + b =~= a);
    } else {
        lemma_occurrences_concat(a, b.drop_last(), t);
        assert((a + b).drop_last() =~= a + b.drop_last());
    }
}

proof fn lemma_absent_not_released(p: Seq<PendingRelease>, now: u64, later: u64, t: Trig)
    requires
        forall|i: int| 0 <= i < p.len() ==> p[i].trig != t,
    ensures
        occurrences(due_trigs(not_due(p, now), later), t) == 0,
        forall|i: int| 0 <= i < not_due(p, now).len() ==> not_due(p, now)[i].trig != t,
    decreases p.len(),
{
    if p.len() > 0 {
        lemma_absent_not_released(p.drop_last(), now, later, t);
        let rest = not_due(p.drop_last(), now);
        assert(p.last().trig != t);
        if p.last().at > now {
            let q = rest.push(p.last());
            assert(q.drop_last() =~= rest);
            if p.last().at <= later {
                let d = due_trigs(rest, later);
                assert(d.push(p.last().trig).drop_last() =~= d);
            }
        }
    }
}

proof fn lemma_release_sweep(x: Seq<Trig>, now: u64, period: nat, later: u64, t: Trig)
    requires
        t.note is Some,
    ensures
        occurrences(due_trigs(releases_for(x, now, period), later), t) == if later >= release_at(
            now,
            period,
            t,
        ) {
            occurrences(x, t)
        } else {
            0
        },
    decreases x.len(),
{
    if x.len() > 0 {
        let u = x.last();
        lemma_release_sweep(x.drop_last(), now, period, later, t);
        let r = releases_for(x.drop_last(), now, period);
        let d = due_trigs(r, later);
        if u.note is Some {
            let entry = PendingRelease { at: release_at(now, period, u), trig: u };
            assert(r.push(entry).drop_last() =~= r);
            if entry.at <= later {
                assert(d.push(u).drop_last() =~= d);
            }
        }
    }
}

/// A trig that carries a note, lasts one step and occurs once in the pattern
/// is switched on exactly once when its step plays at `now`, and the release
/// sweep at any later instant returns it once if at least one step period has
/// passed since `now` (saturating at the largest `u64`) and not at all before.
pub proof fn lemma_one_step_note(e: EngineView, now: u64, later: u64, t: Trig)
    requires
        e.well_formed(),
        e.is_due(now),
        t.note is Some,
        t.length == crate::pattern::STEP_FRACTION,
        t.step == e.step,
        occurrences(e.current->0.trigs, t) == 1,
        forall|i: int| 0 <= i < e.pending.len() ==> e.pending[i].trig != t,
    ensures
        occurrences(trigs_on_step(e.current->0.trigs, e.step), t) == 1,
        release_at(now, step_period(e.current->0), t) as int == if now + step_period(
            e.current->0,
        ) > u64::MAX {
            u64::MAX as int
        } else {
            now + step_period(e.current->0)
        },
        occurrences(due_trigs(after_step(e, now).pending, later), t) == if later >= release_at(
            now,
            step_period(e.current->0),
            t,
        ) {
            1nat
        } else {
            0nat
        },
{
    let s = e.current->0;
    let period = step_period(s);
    let on = trigs_on_step(s.trigs, e.step);
    lemma_occurrences_on_step(s.trigs, e.step, t);
    assert(ceil_steps(t.length) == 1);
    lemma_due_concat(not_due(e.pending, now), releases_for(on, now, period), later);
    lemma_absent_not_released(e.pending, now, later, t);
    lemma_release_sweep(on, now, period, later, t);
    lemma_occurrences_concat(
        due_trigs(not_due(e.pending, now), later),
        due_trigs(releases_for(on, now, period), later),
        t,
    );
}

/// Hands a played step to `handler`: first the releases, then the step's trigs.
pub fn dispatch<H: StepHandler>(handler: &H, events: &StepEvents) {
    let mut off: Vec<&Trig> = Vec::new();
    let mut i: usize = 0;
    while i < events.notes_off.len()
        decreases events.notes_off.len() - i,
    {
        off.push(&events.notes_off[i]);
        i = i + 1;
    }
    handler.handle_notes_off(off);
    let mut on: Vec<&Trig> = Vec::new();
    let mut j: usize = 0;
    while j < events.notes_on.len()
        decreases events.notes_on.len() - j,
    {
        on.push(&events.notes_on[j]);
        j = j + 1;
    }
    handler.handle_notes_on(on);
}

} // verus!
