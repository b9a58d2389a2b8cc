//! The note-off scheduler: notes in flight and the instants of their release.

use vstd::prelude::*;
use crate::pattern::Trig;

verus! {

/// A note whose release is due at instant `at` (microseconds).
#[derive(Clone, Copy, Debug, PartialEq, Eq, Structural)]
pub struct PendingRelease {
    pub at: u64,
    pub trig: Trig,
}

/// The trigs of `s` whose release is due at `now`, in insertion order.
pub open spec fn due_trigs(s: Seq<PendingRelease>, now: u64) -> Seq<Trig>
    decreases s.len(),
{
    if s.len() == 0 {
        Seq::empty()
    } else if s.last().at <= now {
        due_trigs(s.drop_last(), now).push(s.last().trig)
    } else {
        due_trigs(s.drop_last(), now)
    }
}

/// The entries of `s` still pending after `now`, in insertion order.
pub open spec fn not_due(s: Seq<PendingRelease>, now: u64) -> Seq<PendingRelease>
    decreases s.len(),
{
    if s.len() == 0 {
        Seq::empty()
    } else if s.last().at <= now {
        not_due(s.drop_last(), now)
    } else {
        not_due(s.drop_last(), now).push(s.last())
    }
}

/// Pending note releases, kept in the order they were scheduled.
///
/// Entries that share an instant come out in the order they went in; once
/// drained, an entry is gone.
pub struct PendingReleases {
    entries: Vec<PendingRelease>,
}

impl View for PendingReleases {
    type V = Seq<PendingRelease>;

    closed spec fn view(&self) -> Seq<PendingRelease> {
        self.entries@
    }
}

impl PendingReleases {
    /// An empty scheduler.
    pub fn new() -> (r: PendingReleases)
        ensures
            r@ == Seq::<PendingRelease>::empty(),
    {
        PendingReleases { entries: Vec::new() }
    }

    /// Number of notes awaiting release.
    pub fn len(&self) -> (r: usize)
        ensures
            r == self@.len(),
    {
        self.entries.len()
    }

    /// Records that `trig` must be released at instant `at`.
    pub fn schedule(&mut self, at: u64, trig: Trig)
        ensures
            final(self)@ == old(self)@.push(PendingRelease { at, trig }),
    {
        self.entries.push(PendingRelease { at, trig });
    }

    /// Removes and returns every trig whose instant is `<= now`.
    pub fn drain_due(&mut self, now: u64) -> (due: Vec<Trig>)
        ensures
            due@ == due_trigs(old(self)@, now),
            final(self)@ == not_due(old(self)@, now),
    {
        let mut due: Vec<Trig> = Vec::new();
        let mut kept: Vec<PendingRelease> = Vec::new();
        let n = self.entries.len();
        let mut i: usize = 0;
        while i < n
            invariant
                n == self.entries@.len(),
                0 <= i <= n,
                due@ == due_trigs(self.entries@.take(i as int), now),
                kept@ == not_due(self.entries@.take(i as int), now),
            decreases n - i,
        {
            let e = self.entries[i];
            assert(self.entries@.take(i + 1).drop_last() =~= self.entries@.take(i as int));
            if e.at <= now {
                due.push(e.trig);
            } else {
                kept.push(e);
            }
            i = i + 1;
        }
        assert(self.entries@.take(n as int) =~= self.entries@);
        self.entries = kept;
        due
    }

    /// Forgets every pending release without emitting it.
    pub fn clear(&mut self)
        ensures
            final(self)@ == Seq::<PendingRelease>::empty(),
    {
        self.entries.clear();
    }
}

} // verus!
