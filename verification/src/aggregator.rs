//! The one place where the records of all workers come together.
use vstd::prelude::*;
use crate::details::{RunDetails, Tally};

verus! {

/// A window is flushed once more than this many nanoseconds have passed
/// since the last flush: one second.
pub const WINDOW_NANOS: u128 = 1_000_000_000;

/// One record on its way to the aggregator: a sampler's snapshot of a
/// window, or the last record of a worker that has left its loop.
pub struct Delivery {
    pub record: Tally,
    pub last: bool,
}

/// What an [`Aggregator`] stands for: the totals of the whole run, and the
/// records that came in since the last flush.
pub struct Ledger {
    pub totals: Tally,
    pub window: Tally,
}

impl Ledger {
    /// The ledger of a run in which nothing has come in.
    pub open spec fn empty() -> Ledger {
        Ledger { totals: Tally::zero(), window: Tally::zero() }
    }

    /// Whether a flush is due after this many nanoseconds.
    pub open spec fn flush_due(since_flush_nanos: nat) -> bool {
        since_flush_nanos > WINDOW_NANOS
    }

    /// The ledger after a sample has come in, that many nanoseconds after
    /// the last flush.
    pub open spec fn absorbed(self, sample: Tally, since_flush_nanos: nat) -> Ledger {
        Ledger {
            totals: self.totals.merged(sample),
            window: if Ledger::flush_due(since_flush_nanos) {
                Tally::zero()
            } else {
                self.window.merged(sample)
            },
        }
    }

    /// The ledger after a worker's last record has come in. It belongs to
    /// the totals alone.
    pub open spec fn concluded(self, last: Tally) -> Ledger {
        Ledger { totals: self.totals.merged(last), window: self.window }
    }

    /// The ledger after one delivery has come in, `gap` nanoseconds after
    /// the last flush.
    pub open spec fn took(self, delivery: Delivery, gap: nat) -> Ledger {
        if delivery.last {
            self.concluded(delivery.record)
        } else {
            self.absorbed(delivery.record, gap)
        }
    }

    /// The ledger after these deliveries have come in, in this order, the
    /// one at place `k` coming in `gaps(k)` nanoseconds after the last
    /// flush.
    pub open spec fn fed(self, deliveries: Seq<Delivery>, gaps: spec_fn(int) -> nat) -> Ledger
        decreases deliveries.len(),
    {
        if deliveries.len() == 0 {
            self
        } else {
            self.fed(deliveries.drop_last(), gaps).took(
                deliveries.last(),
                gaps(deliveries.len() - 1),
            )
        }
    }

    /// No window has counted more than the whole run.
    pub open spec fn sound(self) -> bool {
        self.window.successes <= self.totals.successes && self.window.failures
            <= self.totals.failures
    }
}

/// One line of live progress: what came in during the last window.
#[derive(Clone, Copy, Debug, PartialEq, Eq, Structural)]
pub struct ProgressLine {
    pub window_latency: u128,
    pub window_successes: u64,
    pub window_failures: u64,
    pub window_total: u128,
}

impl ProgressLine {
    /// Whether the line shows exactly this window.
    pub open spec fn shows(self, window: Tally) -> bool {
        &&& self.window_latency == window.latency
        &&& self.window_successes == window.successes
        &&& self.window_failures == window.failures
        &&& self.window_total == window.attempts()
    }
}

/// Merges what the samplers and workers send: into the totals of the run,
/// and into a window that is shown and emptied about once a second.
pub struct Aggregator {
    totals: RunDetails,
    window: RunDetails,
}

impl View for Aggregator {
    type V = Ledger;

    closed spec fn view(&self) -> Ledger {
        Ledger { totals: self.totals@, window: self.window@ }
    }
}

impl Aggregator {
    #[verifier::type_invariant]
    spec fn inv(self) -> bool {
        self@.sound()
    }

    /// An aggregator into which nothing has come yet.
    pub fn new() -> (aggregator: Aggregator)
        ensures
            aggregator@ == Ledger::empty(),
    {
        Aggregator { totals: RunDetails::new(), window: RunDetails::new() }
    }

    /// The totals of the run so far.
    pub fn totals(&self) -> (totals: RunDetails)
        ensures
            totals@ == self@.totals,
    {
        self.totals
    }

    /// What came in since the last flush.
    pub fn window(&self) -> (window: RunDetails)
        ensures
            window@ == self@.window,
            self@.sound(),
    {
        proof {
            use_type_invariant(self);
        }
        self.window
    }

    /// Whether `record` can come in without a count of the totals leaving
    /// the range of its type.
    pub fn has_room_for(&self, record: &RunDetails) -> (ok: bool)
        ensures
            ok == self@.totals.merged(record@).fits(),
    {
        self.totals.can_merge(record)
    }

    /// Takes in one sample, `since_flush_nanos` after the last flush (or
    /// after the start, before the first). Where more than a second has
    /// passed, the window with this sample in it is handed out as a
    /// progress line and a new window begins: whoever calls notes the time
    /// of the flush.
    pub fn absorb(&mut self, sample: RunDetails, since_flush_nanos: u128) -> (line: Option<
        ProgressLine,
    >)
        requires
            old(self)@.totals.merged(sample@).fits(),
        ensures
            final(self)@ == old(self)@.absorbed(sample@, since_flush_nanos as nat),
            match line {
                Some(line) => Ledger::flush_due(since_flush_nanos as nat) && line.shows(
                    old(self)@.window.merged(sample@),
                ),
                None => !Ledger::flush_due(since_flush_nanos as nat),
            },
    {
        proof {
            use_type_invariant(&*self);
        }
        let mut totals = self.totals;
        let mut window = self.window;
        totals.merge(sample);
        window.merge(sample);
        self.totals = totals;
        if since_flush_nanos > WINDOW_NANOS {
            self.window = RunDetails::new();
            Some(
                ProgressLine {
                    window_latency: window.latency,
                    window_successes: window.successes,
                    window_failures: window.failures,
                    window_total: window.attempts(),
                },
            )
        } else {
            self.window = window;
            None
        }
    }

    /// Takes in the last record of a worker that has left its loop.
    pub fn conclude(&mut self, last: RunDetails)
        requires
            old(self)@.totals.merged(last@).fits(),
        ensures
            final(self)@ == old(self)@.concluded(last@),
    {
        proof {
            use_type_invariant(&*self);
        }
        let mut totals = self.totals;
        totals.merge(last);
        self.totals = totals;
    }
}

} // verus!
