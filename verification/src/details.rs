//! The metrics record that every worker keeps, and its merge rule.
use vstd::prelude::*;

verus! {

/// What a [`RunDetails`] stands for: two exact counts and a smoothed latency
/// in nanoseconds, as unbounded numbers.
pub struct Tally {
    pub successes: nat,
    pub failures: nat,
    pub latency: nat,
}

impl Tally {
    /// The record of a worker that has done nothing yet.
    pub open spec fn zero() -> Tally {
        Tally { successes: 0, failures: 0, latency: 0 }
    }

    /// One more success that took `sample` nanoseconds. The latency is an
    /// exponential moving average of weight one half, so it depends on the
    /// order of the samples.
    pub open spec fn with_success(self, sample: nat) -> Tally {
        Tally {
            successes: self.successes + 1,
            failures: self.failures,
            latency: (self.latency + sample) / 2,
        }
    }

    /// One more failure. The latency is left alone.
    pub open spec fn with_failure(self) -> Tally {
        Tally { successes: self.successes, failures: self.failures + 1, latency: self.latency }
    }

    /// The merge of two records: counts add up, latencies are averaged.
    pub open spec fn merged(self, other: Tally) -> Tally {
        Tally {
            successes: self.successes + other.successes,
            failures: self.failures + other.failures,
            latency: (self.latency + other.latency) / 2,
        }
    }

    /// Lookups attempted, whatever their outcome.
    pub open spec fn attempts(self) -> nat {
        self.successes + self.failures
    }

    /// Whether both counts can be held in a [`RunDetails`].
    pub open spec fn fits(self) -> bool {
        self.successes <= u64::MAX && self.failures <= u64::MAX
    }
}

/// Metrics of one worker, of one sampling window, or of a whole run.
#[derive(Clone, Copy, Debug, PartialEq, Eq, Structural)]
pub struct RunDetails {
    /// Lookups that were answered.
    pub successes: u64,
    /// Lookups that failed or timed out.
    pub failures: u64,
    /// Smoothed latency of the successes, in nanoseconds.
    pub latency: u128,
}

impl View for RunDetails {
    type V = Tally;

    open spec fn view(&self) -> Tally {
        Tally {
            successes: self.successes as nat,
            failures: self.failures as nat,
            latency: self.latency as nat,
        }
    }
}

/// Half of the sum of two latencies, rounded down, without forming the sum.
fn midpoint(a: u128, b: u128) -> (m: u128)
    ensures
        m == (a + b) / 2,
{
    a / 2 + b / 2 + (a % 2 + b % 2) / 2
}

impl RunDetails {
    /// A record with nothing counted.
    pub fn new() -> (details: RunDetails)
        ensures
            details@ == Tally::zero(),
    {
        RunDetails { successes: 0, failures: 0, latency: 0 }
    }

    /// Forgets everything counted so far.
    pub fn reset(&mut self)
        ensures
            final(self)@ == Tally::zero(),
    {
        self.successes = 0;
        self.failures = 0;
        self.latency = 0;
    }

    /// Counts a lookup that was answered after `elapsed_nanos`.
    pub fn record_success(&mut self, elapsed_nanos: u128)
        requires
            old(self).successes < u64::MAX,
        ensures
            final(self)@ == old(self)@.with_success(elapsed_nanos as nat),
    {
        self.successes = self.successes + 1;
        self.latency = midpoint(self.latency, elapsed_nanos);
    }

    /// Counts a lookup that failed, whatever the reason.
    pub fn record_failure(&mut self)
        requires
            old(self).failures < u64::MAX,
        ensures
            final(self)@ == old(self)@.with_failure(),
    {
        self.failures = self.failures + 1;
    }

    /// Whether `rhs` can be merged into this record without a count leaving
    /// the range of its type.
    pub fn can_merge(&self, rhs: &RunDetails) -> (ok: bool)
        ensures
            ok == self@.merged(rhs@).fits(),
    {
        rhs.successes <= u64::MAX - self.successes && rhs.failures <= u64::MAX - self.failures
    }

    /// Merges `rhs` into this record.
    pub fn merge(&mut self, rhs: RunDetails)
        requires
            old(self)@.merged(rhs@).fits(),
        ensures
            final(self)@ == old(self)@.merged(rhs@),
    {
        self.latency = midpoint(rhs.latency, self.latency);
        self.successes = self.successes + rhs.successes;
        self.failures = self.failures + rhs.failures;
    }

    /// Hands out what was counted since the last call and starts a new
    /// window, in one step.
    pub fn take(&mut self) -> (snapshot: RunDetails)
        ensures
            snapshot == *old(self),
            final(self)@ == Tally::zero(),
    {
        let snapshot = *self;
        self.reset();
        snapshot
    }

    /// Lookups attempted, whatever their outcome.
    pub fn attempts(&self) -> (n: u128)
        ensures
            n == self@.attempts(),
    {
        self.successes as u128 + self.failures as u128
    }
}

impl Default for RunDetails {
    fn default() -> (details: RunDetails)
        ensures
            details@ == Tally::zero(),
    {
        RunDetails::new()
    }
}

/// Merging is commutative in every field: the counts add and the latency is
/// the mean of the two, whichever side each record stands on.
pub proof fn merge_commutes(a: Tally, b: Tally)
    ensures
        a.merged(b) == b.merged(a),
{
}

} // verus!
