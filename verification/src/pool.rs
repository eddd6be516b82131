//! The pool as a whole: what holds of every run, whatever the threads do
//! and in whatever order.
//!
//! A [`Pool`] is the state of all workers, of the start barrier and of the
//! termination signal, together with a record of what has happened so far.
//! It moves by the same steps as the parts themselves:
//! [`WorkerState::after`], [`Latch::signalled`], [`Latch::opened`] and
//! [`Ledger::fed`].
use vstd::prelude::*;
use crate::aggregator::{Delivery, Ledger};
use crate::barrier::Latch;
use crate::details::Tally;
use crate::worker::{Directive, WorkerEvent, WorkerPhase, WorkerState};

verus! {

/// The sum of a sequence of counts.
pub open spec fn total(counts: Seq<nat>) -> nat
    decreases counts.len(),
{
    if counts.len() == 0 {
        0
    } else {
        total(counts.drop_last()) + counts.last()
    }
}

/// The successes of each delivery, in order.
pub open spec fn delivered_successes(deliveries: Seq<Delivery>) -> Seq<nat> {
    Seq::new(deliveries.len(), |k: int| deliveries[k].record.successes)
}

/// The failures of each delivery, in order.
pub open spec fn delivered_failures(deliveries: Seq<Delivery>) -> Seq<nat> {
    Seq::new(deliveries.len(), |k: int| deliveries[k].record.failures)
}

/// The successes that each worker has counted and not yet handed on.
pub open spec fn held_successes(workers: Seq<WorkerState>) -> Seq<nat> {
    Seq::new(workers.len(), |i: int| workers[i].local.successes)
}

/// The failures that each worker has counted and not yet handed on.
pub open spec fn held_failures(workers: Seq<WorkerState>) -> Seq<nat> {
    Seq::new(workers.len(), |i: int| workers[i].local.failures)
}

/// One if a lookup of the worker is in flight, else nothing.
pub open spec fn in_flight(worker: WorkerState) -> nat {
    if worker.phase == WorkerPhase::Querying {
        1
    } else {
        0
    }
}

/// What can happen in a pool.
pub enum PoolEvent {
    /// Something happens to this worker. The start barrier lets it through
    /// only while the latch is open, and what it reads of the termination
    /// signal is what the signal holds.
    Worker { worker: int, event: WorkerEvent },
    /// The coordinator tries to open the start barrier.
    Release,
    /// The coordinator sets the termination signal.
    Terminate,
}

/// A pool at one moment of its run.
pub struct Pool {
    pub latch: Latch,
    pub workers: Seq<WorkerState>,
    /// The termination signal.
    pub terminated: bool,
    /// How many lookups each worker has begun.
    pub issued: Seq<nat>,
    /// How many outcomes each worker has taken in.
    pub recorded: Seq<nat>,
    /// How many lookups of the whole pool were answered.
    pub answered: nat,
    /// How many lookups of the whole pool failed.
    pub failed: nat,
    /// Everything that was sent to the aggregator, in order.
    pub delivered: Seq<Delivery>,
}

impl Pool {
    /// A pool of `workers` workers in which nothing has happened.
    pub open spec fn initial(workers: nat) -> Pool {
        Pool {
            latch: Latch::closed(workers),
            workers: Seq::new(workers, |i: int| WorkerState::fresh()),
            terminated: false,
            issued: Seq::new(workers, |i: int| 0nat),
            recorded: Seq::new(workers, |i: int| 0nat),
            answered: 0,
            failed: 0,
            delivered: Seq::empty(),
        }
    }

    /// Whether `event` can happen in this pool.
    pub open spec fn admits(self, event: PoolEvent) -> bool {
        match event {
            PoolEvent::Worker { worker, event } => {
                &&& 0 <= worker < self.workers.len()
                &&& event is Released ==> self.latch.released
                &&& event matches WorkerEvent::Signal { terminated } ==> terminated
                    == self.terminated
            },
            PoolEvent::Release | PoolEvent::Terminate => true,
        }
    }

    /// The pool after `event`. An event that cannot happen changes nothing.
    pub open spec fn after(self, event: PoolEvent) -> Pool {
        if !self.admits(event) {
            self
        } else {
            match event {
                PoolEvent::Release => Pool { latch: self.latch.opened(), ..self },
                PoolEvent::Terminate => Pool { terminated: true, ..self },
                PoolEvent::Worker { worker, event } => {
                    let before = self.workers[worker];
                    let directive = before.directive(event);
                    let counts = before.phase == WorkerPhase::Querying;
                    Pool {
                        latch: if directive is SignalReady {
                            self.latch.signalled(worker)
                        } else {
                            self.latch
                        },
                        workers: self.workers.update(worker, before.after(event)),
                        terminated: self.terminated,
                        issued: if directive is Lookup {
                            self.issued.update(worker, self.issued[worker] + 1)
                        } else {
                            self.issued
                        },
                        recorded: if counts && (event is Answered || event is Failed) {
                            self.recorded.update(worker, self.recorded[worker] + 1)
                        } else {
                            self.recorded
                        },
                        answered: if counts && event is Answered {
                            self.answered + 1
                        } else {
                            self.answered
                        },
                        failed: if counts && event is Failed {
                            self.failed + 1
                        } else {
                            self.failed
                        },
                        delivered: match directive {
                            Directive::Forward(record) => self.delivered.push(
                                Delivery { record, last: false },
                            ),
                            Directive::ReportFinal(record) => self.delivered.push(
                                Delivery { record, last: true },
                            ),
                            _ => self.delivered,
                        },
                    }
                },
            }
        }
    }

    /// The pool after a whole history of events.
    pub open spec fn after_all(self, events: Seq<PoolEvent>) -> Pool
        decreases events.len(),
    {
        if events.len() == 0 {
            self
        } else {
            self.after_all(events.drop_last()).after(events.last())
        }
    }

    /// Whether every worker has handed in its last record.
    pub open spec fn settled(self) -> bool {
        forall|i: int|
            0 <= i < self.workers.len() ==> (#[trigger] self.workers[i]).phase
                == WorkerPhase::Finished
    }

    /// The latch, the workers and the counts are of one pool.
    pub open spec fn shaped(self) -> bool {
        &&& self.latch.ready.len() == self.workers.len()
        &&& self.issued.len() == self.workers.len()
        &&& self.recorded.len() == self.workers.len()
    }

    /// Nobody is past a closed latch, and only a worker that was set up
    /// has signalled.
    pub open spec fn latched(self) -> bool {
        &&& self.latch.sound()
        &&& forall|i: int|
            0 <= i < self.workers.len() && #[trigger] self.latch.ready[i] ==> self.workers[i].phase
                != WorkerPhase::Created
        &&& forall|i: int|
            0 <= i < self.workers.len() && (#[trigger] self.workers[i]).past_barrier()
                ==> self.latch.released
        &&& forall|i: int|
            0 <= i < self.issued.len() && #[trigger] self.issued[i] > 0 ==> self.latch.released
    }

    /// Whether the lookups that worker `i` began and the outcomes that it
    /// took in go together: every lookup has brought its outcome or is in
    /// flight, but for the one that a worker was in when it gave up.
    pub open spec fn paired(self, i: int) -> bool {
        if self.workers[i].phase == WorkerPhase::Aborted {
            self.recorded[i] <= self.issued[i] <= self.recorded[i] + 1
        } else {
            self.issued[i] == self.recorded[i] + in_flight(self.workers[i])
        }
    }

    /// Lookups and outcomes go together, and a worker that has finished
    /// holds nothing back.
    pub open spec fn counted(self) -> bool {
        &&& forall|i: int| 0 <= i < self.workers.len() ==> #[trigger] self.paired(i)
        &&& forall|i: int|
            0 <= i < self.workers.len() && (#[trigger] self.workers[i]).phase
                == WorkerPhase::Finished ==> self.workers[i].local == Tally::zero()
    }

    /// Every outcome is either still with its worker or was sent on, once.
    pub open spec fn balanced(self) -> bool {
        &&& total(delivered_successes(self.delivered)) + total(held_successes(self.workers))
            == self.answered
        &&& total(delivered_failures(self.delivered)) + total(held_failures(self.workers))
            == self.failed
        &&& total(self.recorded) == self.answered + self.failed
    }

    /// What holds of a pool at every moment of a run.
    pub open spec fn sound(self) -> bool {
        self.shaped() && self.latched() && self.counted() && self.balanced()
    }
}

/// Replacing one count moves the sum by the difference.
pub proof fn total_after_update(counts: Seq<nat>, i: int, count: nat)
    requires
        0 <= i < counts.len(),
    ensures
        total(counts.update(i, count)) + counts[i] == total(counts) + count,
    decreases counts.len(),
{
    let updated = counts.update(i, count);
    if i == counts.len() - 1 {
        assert(updated.drop_last() =~= counts.drop_last());
    } else {
        assert(updated.drop_last() =~= counts.drop_last().update(i, count));
        total_after_update(counts.drop_last(), i, count);
    }
}

/// Counts that are all zero add up to zero.
pub proof fn total_of_zeros(counts: Seq<nat>)
    requires
        forall|i: int| 0 <= i < counts.len() ==> counts[i] == 0,
    ensures
        total(counts) == 0,
    decreases counts.len(),
{
    if counts.len() > 0 {
        total_of_zeros(counts.drop_last());
    }
}

/// Counts that agree place by place add up to the same.
pub proof fn total_of_equals(left: Seq<nat>, right: Seq<nat>)
    requires
        left.len() == right.len(),
        forall|i: int| 0 <= i < left.len() ==> left[i] == right[i],
    ensures
        total(left) == total(right),
{
    assert(left =~= right);
}

proof fn delivery_adds(deliveries: Seq<Delivery>, delivery: Delivery)
    ensures
        total(delivered_successes(deliveries.push(delivery))) == total(
            delivered_successes(deliveries),
        ) + delivery.record.successes,
        total(delivered_failures(deliveries.push(delivery))) == total(
            delivered_failures(deliveries),
        ) + delivery.record.failures,
{
    let longer = deliveries.push(delivery);
    assert(delivered_successes(longer).drop_last() =~= delivered_successes(deliveries));
    assert(delivered_failures(longer).drop_last() =~= delivered_failures(deliveries));
}

proof fn holding_changes(workers: Seq<WorkerState>, i: int, worker: WorkerState)
    requires
        0 <= i < workers.len(),
    ensures
        total(held_successes(workers.update(i, worker))) + workers[i].local.successes == total(
            held_successes(workers),
        ) + worker.local.successes,
        total(held_failures(workers.update(i, worker))) + workers[i].local.failures == total(
            held_failures(workers),
        ) + worker.local.failures,
{
    let updated = workers.update(i, worker);
    assert(held_successes(updated) =~= held_successes(workers).update(
        i,
        worker.local.successes,
    ));
    assert(held_failures(updated) =~= held_failures(workers).update(i, worker.local.failures));
    total_after_update(held_successes(workers), i, worker.local.successes);
    total_after_update(held_failures(workers), i, worker.local.failures);
}

proof fn step_keeps_latched(pool: Pool, event: PoolEvent)
    requires
        pool.shaped(),
        pool.latched(),
    ensures
        pool.after(event).shaped(),
        pool.after(event).latched(),
{
    let next = pool.after(event);
    if pool.admits(event) {
        match event {
            PoolEvent::Worker { worker, event } => {
                let before = pool.workers[worker];
                if pool.latch.released {
                    assert forall|i: int| 0 <= i < next.latch.ready.len() implies
                        next.latch.ready[i] by {
                        assert(pool.latch.ready[i]);
                    }
                }
                assert forall|i: int| 0 <= i < next.workers.len() && #[trigger] next.latch.ready[i]
                implies next.workers[i].phase != WorkerPhase::Created by {
                    if i != worker {
                        assert(pool.latch.ready[i]);
                    } else if !(before.directive(event) is SignalReady) {
                        assert(pool.latch.ready[i]);
                    }
                }
                assert forall|i: int|
                    0 <= i < next.workers.len() && (#[trigger] next.workers[i]).past_barrier()
                implies next.latch.released by {
                    if i != worker {
                        assert(pool.workers[i].past_barrier());
                    } else {
                        assert(before.past_barrier() || event is Released);
                    }
                }
                assert forall|i: int| 0 <= i < next.issued.len() && #[trigger] next.issued[i] > 0
                implies next.latch.released by {
                    if i != worker || !(before.directive(event) is Lookup) {
                        assert(pool.issued[i] > 0);
                    } else {
                        assert(before.past_barrier());
                    }
                }
            },
            PoolEvent::Release => {
                assert forall|i: int| 0 <= i < next.workers.len() && #[trigger] next.latch.ready[i]
                implies next.workers[i].phase != WorkerPhase::Created by {
                    assert(pool.latch.ready[i]);
                }
                assert forall|i: int|
                    0 <= i < next.workers.len() && (#[trigger] next.workers[i]).past_barrier()
                implies next.latch.released by {
                    assert(pool.workers[i].past_barrier());
                }
                assert forall|i: int| 0 <= i < next.issued.len() && #[trigger] next.issued[i] > 0
                implies next.latch.released by {
                    assert(pool.issued[i] > 0);
                }
            },
            PoolEvent::Terminate => {},
        }
    }
}

proof fn step_keeps_counted(pool: Pool, event: PoolEvent)
    requires
        pool.shaped(),
        pool.counted(),
    ensures
        pool.after(event).counted(),
{
    let next = pool.after(event);
    if pool.admits(event) {
        assert forall|i: int| 0 <= i < next.workers.len() implies #[trigger] next.paired(i) by {
            assert(pool.paired(i));
        }
        assert forall|i: int|
            0 <= i < next.workers.len() && (#[trigger] next.workers[i]).phase
                == WorkerPhase::Finished
        implies next.workers[i].local == Tally::zero() by {
            assert(pool.workers[i].phase == WorkerPhase::Finished || (event
                matches PoolEvent::Worker { worker, .. } && worker == i));
        }
    }
}

proof fn step_keeps_balanced(pool: Pool, event: PoolEvent)
    requires
        pool.shaped(),
        pool.balanced(),
    ensures
        pool.after(event).balanced(),
{
    let next = pool.after(event);
    if pool.admits(event) {
        match event {
            PoolEvent::Worker { worker, event } => {
                let before = pool.workers[worker];
                holding_changes(pool.workers, worker, before.after(event));
                match before.directive(event) {
                    Directive::Forward(record) => {
                        delivery_adds(pool.delivered, Delivery { record, last: false });
                    },
                    Directive::ReportFinal(record) => {
                        delivery_adds(pool.delivered, Delivery { record, last: true });
                    },
                    _ => {},
                }
                if before.phase == WorkerPhase::Querying && (event is Answered
                    || event is Failed) {
                    total_after_update(pool.recorded, worker, pool.recorded[worker] + 1);
                }
            },
            _ => {},
        }
    }
}

/// No event takes a pool out of soundness.
pub proof fn step_keeps_sound(pool: Pool, event: PoolEvent)
    requires
        pool.sound(),
    ensures
        pool.after(event).sound(),
{
    step_keeps_latched(pool, event);
    step_keeps_counted(pool, event);
    step_keeps_balanced(pool, event);
}

/// A pool is sound at every moment of every run.
pub proof fn always_sound(workers: nat, events: Seq<PoolEvent>)
    ensures
        Pool::initial(workers).after_all(events).sound(),
        Pool::initial(workers).after_all(events).workers.len() == workers,
    decreases events.len(),
{
    let start = Pool::initial(workers);
    if events.len() == 0 {
        total_of_zeros(held_successes(start.workers));
        total_of_zeros(held_failures(start.workers));
        total_of_zeros(start.recorded);
        assert(delivered_successes(start.delivered) =~= Seq::<nat>::empty());
        assert(delivered_failures(start.delivered) =~= Seq::<nat>::empty());
    } else {
        always_sound(workers, events.drop_last());
        step_keeps_sound(start.after_all(events.drop_last()), events.last());
    }
}

/// In every run and at every moment of it: a worker that has begun a
/// lookup has done so after the start barrier was opened, and it was
/// opened after every worker of the pool had been set up and had signalled
/// that it was ready.
pub proof fn no_lookup_before_all_ready(workers: nat, events: Seq<PoolEvent>, worker: int)
    requires
        0 <= worker < workers,
        Pool::initial(workers).after_all(events).issued[worker] > 0,
    ensures
        Pool::initial(workers).after_all(events).latch.released,
        Pool::initial(workers).after_all(events).latch.all_ready(),
        forall|other: int|
            0 <= other < workers ==> (#[trigger] Pool::initial(workers).after_all(
                events,
            ).workers[other]).phase != WorkerPhase::Created,
{
    always_sound(workers, events);
    let pool = Pool::initial(workers).after_all(events);
    assert forall|other: int| 0 <= other < workers implies (#[trigger] pool.workers[other]).phase
        != WorkerPhase::Created by {
        assert(pool.latch.ready[other]);
    }
}

/// Once the termination signal is set it stays set, and no worker begins
/// another lookup, whatever happens next.
pub proof fn no_lookup_after_termination(pool: Pool, events: Seq<PoolEvent>)
    requires
        pool.terminated,
    ensures
        pool.after_all(events).terminated,
        pool.after_all(events).issued == pool.issued,
    decreases events.len(),
{
    if events.len() > 0 {
        no_lookup_after_termination(pool, events.drop_last());
    }
}

/// Once the termination signal is set, each worker takes in one more
/// outcome at most: that of the lookup that was in flight.
pub proof fn one_outcome_after_termination(
    workers: nat,
    before: Seq<PoolEvent>,
    after: Seq<PoolEvent>,
    worker: int,
)
    requires
        0 <= worker < workers,
        Pool::initial(workers).after_all(before).terminated,
    ensures
        Pool::initial(workers).after_all(before).after_all(after).recorded[worker]
            <= Pool::initial(workers).after_all(before).recorded[worker] + 1,
{
    let at_signal = Pool::initial(workers).after_all(before);
    let at_end = at_signal.after_all(after);
    always_sound(workers, before);
    always_sound(workers, before + after);
    runs_compose(Pool::initial(workers), before, after);
    no_lookup_after_termination(at_signal, after);
    assert(at_signal.paired(worker));
    assert(at_end.paired(worker));
}

/// Running through one history and then another is running through both.
pub proof fn runs_compose(pool: Pool, first: Seq<PoolEvent>, second: Seq<PoolEvent>)
    ensures
        pool.after_all(first + second) == pool.after_all(first).after_all(second),
    decreases second.len(),
{
    if second.len() == 0 {
        assert(first + second =~= first);
    } else {
        assert((first + second).drop_last() =~= first + second.drop_last());
        runs_compose(pool, first, second.drop_last());
    }
}

/// What the aggregator has counted once these deliveries have come in is
/// what it had before and what they hold, each once, whenever they came.
pub proof fn fed_counts(ledger: Ledger, deliveries: Seq<Delivery>, gaps: spec_fn(int) -> nat)
    ensures
        ledger.fed(deliveries, gaps).totals.successes == ledger.totals.successes + total(
            delivered_successes(deliveries),
        ),
        ledger.fed(deliveries, gaps).totals.failures == ledger.totals.failures + total(
            delivered_failures(deliveries),
        ),
    decreases deliveries.len(),
{
    if deliveries.len() > 0 {
        fed_counts(ledger, deliveries.drop_last(), gaps);
        delivery_adds(deliveries.drop_last(), deliveries.last());
        assert(deliveries.drop_last().push(deliveries.last()) =~= deliveries);
    }
}

/// When every worker has handed in its last record, the totals of the
/// aggregator hold every lookup of the run once: as many successes as
/// lookups were answered, as many failures as lookups failed, and
/// together as many as the workers went through their loops. Neither the
/// moments of the sampler's ticks nor those of the flushes matter.
pub proof fn every_lookup_counted_once(
    workers: nat,
    events: Seq<PoolEvent>,
    gaps: spec_fn(int) -> nat,
)
    requires
        Pool::initial(workers).after_all(events).settled(),
    ensures
        Ledger::empty().fed(
            Pool::initial(workers).after_all(events).delivered,
            gaps,
        ).totals.successes == Pool::initial(workers).after_all(events).answered,
        Ledger::empty().fed(
            Pool::initial(workers).after_all(events).delivered,
            gaps,
        ).totals.failures == Pool::initial(workers).after_all(events).failed,
        Ledger::empty().fed(
            Pool::initial(workers).after_all(events).delivered,
            gaps,
        ).totals.attempts() == total(Pool::initial(workers).after_all(events).issued),
{
    let pool = Pool::initial(workers).after_all(events);
    always_sound(workers, events);
    fed_counts(Ledger::empty(), pool.delivered, gaps);
    assert forall|i: int| 0 <= i < pool.workers.len() implies
        held_successes(pool.workers)[i] == 0 && held_failures(pool.workers)[i] == 0 by {
        assert(pool.workers[i].phase == WorkerPhase::Finished);
    }
    total_of_zeros(held_successes(pool.workers));
    total_of_zeros(held_failures(pool.workers));
    assert forall|i: int| 0 <= i < pool.issued.len() implies pool.issued[i] == pool.recorded[i] by {
        assert(pool.workers[i].phase == WorkerPhase::Finished);
        assert(pool.paired(i));
    }
    total_of_equals(pool.issued, pool.recorded);
}

} // verus!
