//! The scanner's cursor over the block sequence, and the request-id counter.

use vstd::prelude::*;

verus! {

/// A monotonically increasing counter, used for locally unique request ids
/// and as the running block cursor.
pub struct Counter {
    count: i64,
}

impl Counter {
    /// The current value of the counter.
    pub closed spec fn spec_count(&self) -> int {
        self.count as int
    }

    pub fn new(start: i64) -> (c: Counter)
        ensures
            c.spec_count() == start,
    {
        Counter { count: start }
    }

    /// The value the next call of `next` will hand out.
    pub fn current(&self) -> (c: i64)
        ensures
            c == self.spec_count(),
    {
        self.count
    }

    /// Hands out the current value and advances by one.
    pub fn next(&mut self) -> (cur: i64)
        requires
            old(self).spec_count() < i64::MAX,
        ensures
            cur == old(self).spec_count(),
            final(self).spec_count() == old(self).spec_count() + 1,
    {
        let cur = self.count;
        self.count = self.count + 1;
        cur
    }
}

/// The scanner's cursor state: the next block height to scan and the chain
/// head height captured at run start. The run is caught up (terminal) once
/// the next height exceeds the captured head.
pub struct Scanner {
    next_height: u64,
    head_height: u64,
}

impl Scanner {
    /// The next block height the scanner will process.
    pub closed spec fn next(&self) -> int {
        self.next_height as int
    }

    /// The chain head height captured when the run started.
    pub closed spec fn head(&self) -> int {
        self.head_height as int
    }

    /// Well-formed cursor: heights start at one, and the head leaves room
    /// to advance one past it without wrapping.
    pub open spec fn wf(&self) -> bool {
        1 <= self.next() && self.head() < u64::MAX
    }

    /// Starts a run at `start` (the loaded checkpoint) against the chain
    /// head `head` observed at startup.
    pub fn new(start: u64, head: u64) -> (s: Scanner)
        requires
            1 <= start,
            head < u64::MAX,
        ensures
            s.next() == start,
            s.head() == head,
            s.wf(),
    {
        Scanner { next_height: start, head_height: head }
    }

    /// True exactly when every height up to the captured head has been
    /// processed; the run then stops.
    pub fn caught_up(&self) -> (r: bool)
        ensures
            r == (self.next() > self.head()),
    {
        self.next_height > self.head_height
    }

    /// The height to fetch next. Only meaningful while not caught up.
    pub fn target(&self) -> (h: u64)
        requires
            self.next() <= self.head(),
        ensures
            h == self.next(),
    {
        self.next_height
    }

    /// The block at the current height has no transaction list yet: the
    /// cursor does not advance, and the checkpoint to persist is the same
    /// still-unprocessed height.
    pub fn on_block_unavailable(&self) -> (checkpoint: u64)
        ensures
            checkpoint == self.next(),
    {
        self.next_height
    }

    /// The block at the current height was fully processed: the cursor
    /// advances by one, and the checkpoint to persist is the first
    /// unprocessed height.
    pub fn on_block_processed(&mut self) -> (checkpoint: u64)
        requires
            old(self).wf(),
            old(self).next() <= old(self).head(),
        ensures
            checkpoint == old(self).next() + 1,
            final(self).next() == old(self).next() + 1,
            final(self).head() == old(self).head(),
            final(self).wf(),
    {
        self.next_height = self.next_height + 1;
        self.next_height
    }
}

/// Law: a run restarted from a persisted checkpoint stands exactly where the
/// interrupted run stood. If the old run had just processed height `h` and
/// persisted `h + 1`, the new scanner's first target is `h + 1`: no height is
/// skipped and no fully processed height is repeated.
pub proof fn lemma_scanner_resumption(running: Scanner, restarted: Scanner)
    requires
        restarted.next() == running.next(),
        restarted.head() == running.head(),
    ensures
        (restarted.next() > restarted.head()) == (running.next() > running.head()),
        restarted.next() <= restarted.head() ==> restarted.next() == running.next(),
{
}

} // verus!
