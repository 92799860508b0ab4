//! The debounce signal: a single slot that is clean or dirty, never a queue.

use vstd::prelude::*;

verus! {

/// What a consumer that waits on the signal finds.
#[derive(Clone, Copy, Debug, PartialEq, Eq, Structural)]
pub enum Wake {
    /// A change is pending.
    Changed,
    /// Nothing is pending and the source is closed for good.
    Closed,
    /// Nothing is pending yet: keep waiting.
    Pending,
}

/// A single-slot coalescing signal. `dirty_since` is `None` while the
/// signal is clean, and holds the time of the first unserved mark while it
/// is dirty. `closed` is set once the source will mark no more.
#[derive(Clone, Copy, Debug, PartialEq, Eq)]
pub struct DirtySignal {
    pub dirty_since: Option<u64>,
    pub closed: bool,
}

impl DirtySignal {
    /// Whether a change is pending.
    pub open spec fn dirty(self) -> bool {
        self.dirty_since is Some
    }

    /// The signal after a mark at `now`: a clean, open signal turns dirty
    /// since `now`; a dirty or closed signal stays as it is.
    pub open spec fn marked(self, now: u64) -> DirtySignal {
        if self.closed || self.dirty() {
            self
        } else {
            DirtySignal { dirty_since: Some(now), closed: false }
        }
    }

    /// The signal after its pending change was taken.
    pub open spec fn cleared(self) -> DirtySignal {
        DirtySignal { dirty_since: None, closed: self.closed }
    }

    /// The signal after its source was closed. A pending change stays.
    pub open spec fn shut(self) -> DirtySignal {
        DirtySignal { dirty_since: self.dirty_since, closed: true }
    }

    /// What a waiting consumer finds: a pending change comes before the
    /// closure.
    pub open spec fn wake(self) -> Wake {
        if self.dirty() {
            Wake::Changed
        } else if self.closed {
            Wake::Closed
        } else {
            Wake::Pending
        }
    }

    /// A clean signal with an open source.
    pub fn new() -> (signal: DirtySignal)
        ensures
            signal == (DirtySignal { dirty_since: None, closed: false }),
    {
        DirtySignal { dirty_since: None, closed: false }
    }

    /// Whether a change is pending.
    pub fn is_dirty(&self) -> (yes: bool)
        ensures
            yes == self.dirty(),
    {
        self.dirty_since.is_some()
    }

    /// Whether the source is closed.
    pub fn is_closed(&self) -> (yes: bool)
        ensures
            yes == self.closed,
    {
        self.closed
    }

    /// Marks the signal dirty at `now`. Returns whether this mark turned a
    /// clean signal dirty, that is, whether a waiting consumer is to be
    /// woken. Marking a dirty signal changes nothing, and so does marking
    /// after the source was closed.
    pub fn mark(&mut self, now: u64) -> (turned: bool)
        ensures
            *final(self) == old(self).marked(now),
            turned == (!old(self).closed && !old(self).dirty()),
    {
        if self.closed || self.dirty_since.is_some() {
            false
        } else {
            self.dirty_since = Some(now);
            true
        }
    }

    /// Reads and clears the signal in one step. Returns the time since
    /// which it was dirty, or `None` if it was clean.
    pub fn take(&mut self) -> (since: Option<u64>)
        ensures
            *final(self) == old(self).cleared(),
            since == old(self).dirty_since,
    {
        let since = self.dirty_since;
        self.dirty_since = None;
        since
    }

    /// Closes the source for good. A pending change stays pending.
    pub fn close(&mut self)
        ensures
            *final(self) == old(self).shut(),
    {
        self.closed = true;
    }

    /// What a consumer that waits on the signal finds now.
    pub fn poll(&self) -> (found: Wake)
        ensures
            found == self.wake(),
    {
        if self.dirty_since.is_some() {
            Wake::Changed
        } else if self.closed {
            Wake::Closed
        } else {
            Wake::Pending
        }
    }
}

/// Marking is idempotent: a second mark, at whatever time, leaves the
/// signal as the first mark left it.
pub proof fn mark_is_idempotent(signal: DirtySignal, first: u64, second: u64)
    ensures
        signal.marked(first).marked(second) == signal.marked(first),
{
}

/// However many marks a clean, open signal receives, it holds one pending
/// change, dated by the first of them, and one take leaves it clean.
pub proof fn marks_collapse(signal: DirtySignal, marks: Seq<u64>)
    requires
        !signal.closed,
        !signal.dirty(),
        marks.len() > 0,
    ensures
        marked_all(signal, marks).dirty_since == Some(marks[0]),
        !marked_all(signal, marks).cleared().dirty(),
    decreases marks.len(),
{
    if marks.len() > 1 {
        marks_collapse(signal, marks.drop_last());
        assert(marks.drop_last()[0] == marks[0]);
    } else {
        assert(marks.drop_last().len() == 0);
        assert(marked_all(signal, marks.drop_last()) == signal);
    }
}

/// The signal after every mark of `marks`, taken in order.
pub open spec fn marked_all(signal: DirtySignal, marks: Seq<u64>) -> DirtySignal
    decreases marks.len(),
{
    if marks.len() == 0 {
        signal
    } else {
        marked_all(signal, marks.drop_last()).marked(marks.last())
    }
}

/// Once closed, a signal takes no further mark: after the pending change,
/// if any, was taken, it stays clean for ever.
pub proof fn closed_stays_clean(signal: DirtySignal, now: u64)
    requires
        signal.closed,
    ensures
        signal.marked(now) == signal,
        signal.cleared().marked(now).wake() == Wake::Closed,
{
}

} // verus!
