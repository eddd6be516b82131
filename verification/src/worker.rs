//! One worker of the pool, as a state machine.
//!
//! The worker's thread owns the resolver and the clock. It does what the
//! returned [`WorkerAction`] says and feeds the result back as the next
//! [`WorkerEvent`]. The worker's sampler feeds [`WorkerEvent::Tick`] into the
//! same machine, so a snapshot is taken and the window reset in one step.
use vstd::prelude::*;
use crate::details::{RunDetails, Tally};
use crate::error::RunError;

verus! {

/// The sampler of a worker wakes up once in this many seconds.
pub const SAMPLE_TICK_SECS: u64 = 1;

/// Where a worker stands in its life.
#[derive(Clone, Copy, Debug, PartialEq, Eq, Structural)]
pub enum WorkerPhase {
    /// Not yet set up.
    Created,
    /// Has signalled ready and waits at the start barrier.
    AwaitingRelease,
    /// At an iteration boundary: about to read the termination signal.
    Polling,
    /// A lookup is in flight.
    Querying,
    /// Has seen the termination signal and is stopping its sampler.
    Stopping,
    /// Has handed in its final record.
    Finished,
    /// Has given up.
    Aborted,
}

/// What has happened to a worker.
#[derive(Clone, Copy, Debug, PartialEq, Eq, Structural)]
pub enum WorkerEvent {
    /// The resolver was set up.
    ResolverReady,
    /// The resolver could not be set up.
    ResolverFailed,
    /// The start barrier let the worker through.
    Released,
    /// The termination signal was read at an iteration boundary.
    Signal { terminated: bool },
    /// The lookup in flight was answered after this many nanoseconds.
    Answered { elapsed_nanos: u128 },
    /// The lookup in flight failed or timed out.
    Failed,
    /// The sampler's timer fired.
    Tick,
    /// The sampler has stopped and will not tick again.
    SamplerStopped,
    /// A channel that the worker sends on was closed.
    ChannelClosed,
}

/// What the worker's thread, or its sampler, has to do next.
#[derive(Clone, Copy, Debug, PartialEq, Eq, Structural)]
pub enum WorkerAction {
    /// Tell the coordinator that this worker is ready, then wait at the
    /// start barrier.
    SignalReady,
    /// Read the termination signal.
    CheckSignal,
    /// Note the time and perform one lookup.
    Lookup,
    /// Tell the sampler to stop and wait until it has.
    StopSampler,
    /// Send this window's record to the aggregator.
    Forward(RunDetails),
    /// Send the worker's last record to the aggregator and end.
    ReportFinal(RunDetails),
    /// Give up the whole run for this reason.
    Abort(RunError),
    /// The event does not belong to the worker's phase: nothing to do.
    Ignore,
}

/// What a [`WorkerAction`] stands for.
pub enum Directive {
    SignalReady,
    CheckSignal,
    Lookup,
    StopSampler,
    Forward(Tally),
    ReportFinal(Tally),
    Abort(RunError),
    Ignore,
}

impl View for WorkerAction {
    type V = Directive;

    open spec fn view(&self) -> Directive {
        match *self {
            WorkerAction::SignalReady => Directive::SignalReady,
            WorkerAction::CheckSignal => Directive::CheckSignal,
            WorkerAction::Lookup => Directive::Lookup,
            WorkerAction::StopSampler => Directive::StopSampler,
            WorkerAction::Forward(details) => Directive::Forward(details@),
            WorkerAction::ReportFinal(details) => Directive::ReportFinal(details@),
            WorkerAction::Abort(error) => Directive::Abort(error),
            WorkerAction::Ignore => Directive::Ignore,
        }
    }
}

/// What a [`Worker`] stands for: its phase and what it has counted since
/// the last snapshot.
pub struct WorkerState {
    pub phase: WorkerPhase,
    pub local: Tally,
}

impl WorkerState {
    /// A worker that has not been set up.
    pub open spec fn fresh() -> WorkerState {
        WorkerState { phase: WorkerPhase::Created, local: Tally::zero() }
    }

    /// Whether the worker has neither finished nor given up.
    pub open spec fn live(self) -> bool {
        self.phase != WorkerPhase::Finished && self.phase != WorkerPhase::Aborted
    }

    /// Whether the worker has passed the start barrier at some time.
    pub open spec fn past_barrier(self) -> bool {
        self.phase == WorkerPhase::Polling || self.phase == WorkerPhase::Querying
            || self.phase == WorkerPhase::Stopping || self.phase == WorkerPhase::Finished
    }

    /// Whether `event` belongs to the worker's phase.
    pub open spec fn expects(self, event: WorkerEvent) -> bool {
        match event {
            WorkerEvent::ResolverReady | WorkerEvent::ResolverFailed => self.phase
                == WorkerPhase::Created,
            WorkerEvent::Released => self.phase == WorkerPhase::AwaitingRelease,
            WorkerEvent::Signal { .. } => self.phase == WorkerPhase::Polling,
            WorkerEvent::Answered { .. } | WorkerEvent::Failed => self.phase
                == WorkerPhase::Querying,
            WorkerEvent::Tick | WorkerEvent::ChannelClosed => self.live(),
            WorkerEvent::SamplerStopped => self.phase == WorkerPhase::Stopping,
        }
    }

    /// Whether the outcome that `event` brings can still be counted.
    pub open spec fn can_count(self, event: WorkerEvent) -> bool {
        self.phase == WorkerPhase::Querying ==> match event {
            WorkerEvent::Answered { .. } => self.local.successes < u64::MAX,
            WorkerEvent::Failed => self.local.failures < u64::MAX,
            _ => true,
        }
    }

    /// The worker after `event`. An event that does not belong to the phase
    /// leaves the worker as it was.
    pub open spec fn after(self, event: WorkerEvent) -> WorkerState {
        if !self.expects(event) {
            self
        } else {
            match event {
                WorkerEvent::ResolverReady => WorkerState {
                    phase: WorkerPhase::AwaitingRelease,
                    local: self.local,
                },
                WorkerEvent::ResolverFailed | WorkerEvent::ChannelClosed => WorkerState {
                    phase: WorkerPhase::Aborted,
                    local: self.local,
                },
                WorkerEvent::Released => WorkerState {
                    phase: WorkerPhase::Polling,
                    local: self.local,
                },
                WorkerEvent::Signal { terminated } => WorkerState {
                    phase: if terminated {
                        WorkerPhase::Stopping
                    } else {
                        WorkerPhase::Querying
                    },
                    local: self.local,
                },
                WorkerEvent::Answered { elapsed_nanos } => WorkerState {
                    phase: WorkerPhase::Polling,
                    local: self.local.with_success(elapsed_nanos as nat),
                },
                WorkerEvent::Failed => WorkerState {
                    phase: WorkerPhase::Polling,
                    local: self.local.with_failure(),
                },
                WorkerEvent::Tick => WorkerState { phase: self.phase, local: Tally::zero() },
                WorkerEvent::SamplerStopped => WorkerState {
                    phase: WorkerPhase::Finished,
                    local: Tally::zero(),
                },
            }
        }
    }

    /// What is to be done in answer to `event`.
    pub open spec fn directive(self, event: WorkerEvent) -> Directive {
        if !self.expects(event) {
            Directive::Ignore
        } else {
            match event {
                WorkerEvent::ResolverReady => Directive::SignalReady,
                WorkerEvent::ResolverFailed => Directive::Abort(RunError::InitializationFailure),
                WorkerEvent::ChannelClosed => Directive::Abort(
                    RunError::ChannelInvariantViolation,
                ),
                WorkerEvent::Released => Directive::CheckSignal,
                WorkerEvent::Signal { terminated } => if terminated {
                    Directive::StopSampler
                } else {
                    Directive::Lookup
                },
                WorkerEvent::Answered { .. } | WorkerEvent::Failed => Directive::CheckSignal,
                WorkerEvent::Tick => Directive::Forward(self.local),
                WorkerEvent::SamplerStopped => Directive::ReportFinal(self.local),
            }
        }
    }
}

/// Between two snapshots a worker's counts never fall, and one event adds
/// one to one of them at most.
pub proof fn counts_only_grow(worker: WorkerState, event: WorkerEvent)
    requires
        !(event is Tick),
        !(event is SamplerStopped),
    ensures
        worker.local.successes <= worker.after(event).local.successes,
        worker.local.failures <= worker.after(event).local.failures,
        worker.after(event).local.attempts() <= worker.local.attempts() + 1,
{
}

/// A worker that has finished or given up stays as it is, whatever comes.
pub proof fn end_is_final(worker: WorkerState, event: WorkerEvent)
    requires
        !worker.live(),
    ensures
        worker.after(event) == worker,
        worker.directive(event) == Directive::Ignore,
{
}

/// One worker of the pool.
pub struct Worker {
    phase: WorkerPhase,
    local: RunDetails,
}

impl View for Worker {
    type V = WorkerState;

    closed spec fn view(&self) -> WorkerState {
        WorkerState { phase: self.phase, local: self.local@ }
    }
}

impl Worker {
    /// A worker that has not been set up and has counted nothing.
    pub fn new() -> (worker: Worker)
        ensures
            worker@ == WorkerState::fresh(),
    {
        Worker { phase: WorkerPhase::Created, local: RunDetails::new() }
    }

    /// The worker's phase.
    pub fn phase(&self) -> (phase: WorkerPhase)
        ensures
            phase == self@.phase,
    {
        self.phase
    }

    /// What the worker has counted since the last snapshot.
    pub fn details(&self) -> (details: RunDetails)
        ensures
            details@ == self@.local,
    {
        self.local
    }

    /// Whether `event` belongs to the worker's phase.
    pub fn expects(&self, event: WorkerEvent) -> (yes: bool)
        ensures
            yes == self@.expects(event),
    {
        let live = self.phase != WorkerPhase::Finished && self.phase != WorkerPhase::Aborted;
        match event {
            WorkerEvent::ResolverReady | WorkerEvent::ResolverFailed => self.phase
                == WorkerPhase::Created,
            WorkerEvent::Released => self.phase == WorkerPhase::AwaitingRelease,
            WorkerEvent::Signal { .. } => self.phase == WorkerPhase::Polling,
            WorkerEvent::Answered { .. } | WorkerEvent::Failed => self.phase
                == WorkerPhase::Querying,
            WorkerEvent::Tick | WorkerEvent::ChannelClosed => live,
            WorkerEvent::SamplerStopped => self.phase == WorkerPhase::Stopping,
        }
    }

    /// Whether [`Worker::step`] may be called with `event`: it may unless
    /// the count that the event adds to is at the end of its range.
    pub fn can_count(&self, event: WorkerEvent) -> (ok: bool)
        ensures
            ok == self@.can_count(event),
    {
        if self.phase == WorkerPhase::Querying {
            match event {
                WorkerEvent::Answered { .. } => self.local.successes < u64::MAX,
                WorkerEvent::Failed => self.local.failures < u64::MAX,
                _ => true,
            }
        } else {
            true
        }
    }

    /// Takes `event` in and says what to do next.
    pub fn step(&mut self, event: WorkerEvent) -> (action: WorkerAction)
        requires
            old(self)@.can_count(event),
        ensures
            final(self)@ == old(self)@.after(event),
            action@ == old(self)@.directive(event),
    {
        if !self.expects(event) {
            return WorkerAction::Ignore;
        }
        match event {
            WorkerEvent::ResolverReady => {
                self.phase = WorkerPhase::AwaitingRelease;
                WorkerAction::SignalReady
            },
            WorkerEvent::ResolverFailed => {
                self.phase = WorkerPhase::Aborted;
                WorkerAction::Abort(RunError::InitializationFailure)
            },
            WorkerEvent::ChannelClosed => {
                self.phase = WorkerPhase::Aborted;
                WorkerAction::Abort(RunError::ChannelInvariantViolation)
            },
            WorkerEvent::Released => {
                self.phase = WorkerPhase::Polling;
                WorkerAction::CheckSignal
            },
            WorkerEvent::Signal { terminated } => {
                if terminated {
                    self.phase = WorkerPhase::Stopping;
                    WorkerAction::StopSampler
                } else {
                    self.phase = WorkerPhase::Querying;
                    WorkerAction::Lookup
                }
            },
            WorkerEvent::Answered { elapsed_nanos } => {
                self.local.record_success(elapsed_nanos);
                self.phase = WorkerPhase::Polling;
                WorkerAction::CheckSignal
            },
            WorkerEvent::Failed => {
                self.local.record_failure();
                self.phase = WorkerPhase::Polling;
                WorkerAction::CheckSignal
            },
            WorkerEvent::Tick => WorkerAction::Forward(self.local.take()),
            WorkerEvent::SamplerStopped => {
                self.phase = WorkerPhase::Finished;
                WorkerAction::ReportFinal(self.local.take())
            },
        }
    }
}

} // verus!
