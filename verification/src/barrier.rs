//! The latch that holds every worker back until all of them are ready.
use vstd::prelude::*;

verus! {

/// What a [`StartBarrier`] stands for: who has signalled, and whether the
/// latch is open. Worker `i` of the pool has the index `i`.
pub struct Latch {
    pub ready: Seq<bool>,
    pub released: bool,
}

impl Latch {
    /// The latch of a pool of `workers` workers before anything has happened.
    pub open spec fn closed(workers: nat) -> Latch {
        Latch { ready: Seq::new(workers, |i: int| false), released: false }
    }

    /// Whether `worker` belongs to the pool.
    pub open spec fn knows(self, worker: int) -> bool {
        0 <= worker < self.ready.len()
    }

    /// Whether every worker of the pool has signalled.
    pub open spec fn all_ready(self) -> bool {
        forall|i: int| 0 <= i < self.ready.len() ==> self.ready[i]
    }

    /// The latch after `worker` has signalled. A second signal of the same
    /// worker, or one of a stranger, changes nothing.
    pub open spec fn signalled(self, worker: int) -> Latch {
        if self.knows(worker) {
            Latch { ready: self.ready.update(worker, true), released: self.released }
        } else {
            self
        }
    }

    /// The latch after an attempt to open it: it opens only when every worker
    /// has signalled, and never closes again.
    pub open spec fn opened(self) -> Latch {
        Latch { ready: self.ready, released: self.released || self.all_ready() }
    }

    /// A latch is never open while a worker has yet to signal.
    pub open spec fn sound(self) -> bool {
        self.released ==> self.all_ready()
    }
}

/// A one-shot start barrier for a pool of a fixed size.
///
/// The barrier itself never blocks: whoever owns it waits by whatever means
/// it has until [`StartBarrier::is_released`] says that the latch is open.
pub struct StartBarrier {
    ready: Vec<bool>,
    released: bool,
}

impl View for StartBarrier {
    type V = Latch;

    closed spec fn view(&self) -> Latch {
        Latch { ready: self.ready@, released: self.released }
    }
}

impl StartBarrier {
    #[verifier::type_invariant]
    spec fn inv(self) -> bool {
        self@.sound()
    }

    /// A closed barrier for `workers` workers, none of which has signalled.
    pub fn new(workers: usize) -> (barrier: StartBarrier)
        ensures
            barrier@ == Latch::closed(workers as nat),
    {
        let mut ready: Vec<bool> = Vec::new();
        let mut i: usize = 0;
        while i < workers
            invariant
                i <= workers,
                ready@.len() == i,
                forall|j: int| 0 <= j < i ==> !ready@[j],
            decreases workers - i,
        {
            ready.push(false);
            i = i + 1;
        }
        assert(ready@ =~= Latch::closed(workers as nat).ready);
        StartBarrier { ready, released: false }
    }

    /// The size of the pool.
    pub fn workers(&self) -> (n: usize)
        ensures
            n == self@.ready.len(),
    {
        self.ready.len()
    }

    /// Records that `worker` is ready. Says whether this was news: a signal
    /// of a worker that has signalled before, or that the pool does not
    /// have, is not counted twice.
    pub fn signal_ready(&mut self, worker: usize) -> (fresh: bool)
        ensures
            final(self)@ == old(self)@.signalled(worker as int),
            fresh == (old(self)@.knows(worker as int) && !old(self)@.ready[worker as int]),
    {
        if worker < self.ready.len() && !self.ready[worker] {
            proof {
                use_type_invariant(&*self);
            }
            assert(!self.released);
            self.ready[worker] = true;
            true
        } else {
            assert(self@.signalled(worker as int).ready =~= self@.ready);
            false
        }
    }

    /// Whether `worker` has signalled.
    pub fn has_signalled(&self, worker: usize) -> (yes: bool)
        ensures
            yes == (self@.knows(worker as int) && self@.ready[worker as int]),
    {
        worker < self.ready.len() && self.ready[worker]
    }

    /// Whether every worker of the pool has signalled.
    pub fn all_ready(&self) -> (all: bool)
        ensures
            all == self@.all_ready(),
    {
        let mut i: usize = 0;
        while i < self.ready.len()
            invariant
                i <= self.ready.len(),
                forall|j: int| 0 <= j < i ==> self.ready@[j],
            decreases self.ready.len() - i,
        {
            if !self.ready[i] {
                assert(!self@.ready[i as int]);
                return false;
            }
            i = i + 1;
        }
        true
    }

    /// Opens the latch if every worker has signalled, and says whether this
    /// call was the one that opened it.
    pub fn release(&mut self) -> (opened: bool)
        ensures
            final(self)@ == old(self)@.opened(),
            opened == (!old(self)@.released && old(self)@.all_ready()),
    {
        let all = self.all_ready();
        if !self.released && all {
            assert(self@.ready == self.ready@);
            assert(forall|i: int| 0 <= i < self.ready@.len() ==> self@.ready[i]);
            self.released = true;
            true
        } else {
            false
        }
    }

    /// Whether the latch is open.
    pub fn is_released(&self) -> (open: bool)
        ensures
            open == self@.released,
            open ==> self@.all_ready(),
    {
        proof {
            use_type_invariant(self);
        }
        self.released
    }
}

} // verus!
