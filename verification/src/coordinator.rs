//! The driver of a run, as a state machine.
//!
//! The coordinator's thread spawns, sleeps and joins. It does what the
//! returned [`Command`] says and feeds what happened back as the next
//! [`CoordinatorEvent`].
use vstd::prelude::*;
use crate::barrier::{Latch, StartBarrier};
use crate::details::RunDetails;
use crate::error::RunError;
use crate::report::{summarize, Plan, Report, RunConfig, Summary};

verus! {

/// How many seconds the coordinator waits for the next ready signal before
/// it gives the run up.
pub const READY_WAIT_SECS: u64 = 30;

/// Where a run stands.
#[derive(Clone, Copy, Debug, PartialEq, Eq, Structural)]
pub enum CoordinatorPhase {
    Idle,
    Spawning,
    AwaitingReady,
    Running,
    Draining,
    Reporting,
    Done,
    Aborted,
}

/// What has happened to the run.
#[derive(Clone, Copy, Debug, PartialEq, Eq, Structural)]
pub enum CoordinatorEvent {
    /// The run is to begin.
    Start,
    /// The aggregator and every worker have been launched.
    Spawned,
    /// This worker has signalled that it is ready.
    WorkerReady { worker: usize },
    /// A worker could not be set up, or the wait for the ready signals has
    /// run out.
    ReadyTimedOut,
    /// The run has lasted as long as it was asked to.
    Elapsed,
    /// Every worker has left its loop and was joined.
    Joined,
    /// The aggregator has handed in the merged totals.
    Totals(RunDetails),
    /// A channel of the pool was closed before its time.
    ChannelClosed,
}

/// What the coordinator's thread has to do next.
#[derive(Clone, Debug, PartialEq, Eq)]
pub enum Command {
    /// Launch the aggregator and this many workers.
    Spawn { workers: usize },
    /// Wait for the next ready signal, no longer than is reasonable.
    AwaitReady,
    /// Open the start barrier, then sleep for this many seconds.
    Release { run_secs: u64 },
    /// Set the termination signal and join every worker.
    Terminate,
    /// Close the sample channel and wait for the aggregator's totals.
    Collect,
    /// Hand out the report.
    Emit(Report),
    /// Give up the run for this reason, and print no figures.
    Abort(RunError),
    /// The event does not belong to the phase: nothing to do.
    Ignore,
}

/// What a [`Command`] stands for.
pub enum Order {
    Spawn { workers: nat },
    AwaitReady,
    Release { run_secs: nat },
    Terminate,
    Collect,
    Emit(Summary),
    Abort(RunError),
    Ignore,
}

impl View for Command {
    type V = Order;

    open spec fn view(&self) -> Order {
        match *self {
            Command::Spawn { workers } => Order::Spawn { workers: workers as nat },
            Command::AwaitReady => Order::AwaitReady,
            Command::Release { run_secs } => Order::Release { run_secs: run_secs as nat },
            Command::Terminate => Order::Terminate,
            Command::Collect => Order::Collect,
            Command::Emit(report) => Order::Emit(report@),
            Command::Abort(error) => Order::Abort(error),
            Command::Ignore => Order::Ignore,
        }
    }
}

/// What a [`Coordinator`] stands for.
pub struct Control {
    pub phase: CoordinatorPhase,
    pub plan: Plan,
    pub latch: Latch,
}

impl Control {
    /// The coordinator of a run of `plan` that has not begun.
    pub open spec fn initial(plan: Plan) -> Control {
        Control { phase: CoordinatorPhase::Idle, plan, latch: Latch::closed(plan.workers) }
    }

    /// Whether the workers have been let go at some time.
    pub open spec fn under_way(self) -> bool {
        self.phase == CoordinatorPhase::Running || self.phase == CoordinatorPhase::Draining
            || self.phase == CoordinatorPhase::Reporting || self.phase == CoordinatorPhase::Done
    }

    /// Whether `event` belongs to the coordinator's phase.
    pub open spec fn expects(self, event: CoordinatorEvent) -> bool {
        match event {
            CoordinatorEvent::Start => self.phase == CoordinatorPhase::Idle,
            CoordinatorEvent::Spawned => self.phase == CoordinatorPhase::Spawning,
            CoordinatorEvent::WorkerReady { .. } | CoordinatorEvent::ReadyTimedOut => self.phase
                == CoordinatorPhase::AwaitingReady,
            CoordinatorEvent::Elapsed => self.phase == CoordinatorPhase::Running,
            CoordinatorEvent::Joined => self.phase == CoordinatorPhase::Draining,
            CoordinatorEvent::Totals(_) => self.phase == CoordinatorPhase::Reporting,
            CoordinatorEvent::ChannelClosed => self.phase != CoordinatorPhase::Idle && self.phase
                != CoordinatorPhase::Done && self.phase != CoordinatorPhase::Aborted,
        }
    }

    /// The latch as it is once `event` has been taken in, before any attempt
    /// to open it.
    pub open spec fn latch_with(self, event: CoordinatorEvent) -> Latch {
        match event {
            CoordinatorEvent::WorkerReady { worker } => self.latch.signalled(worker as int),
            _ => self.latch,
        }
    }

    /// The coordinator after `event`. An event that does not belong to the
    /// phase leaves it as it was.
    pub open spec fn after(self, event: CoordinatorEvent) -> Control {
        if !self.expects(event) {
            self
        } else {
            match event {
                CoordinatorEvent::Start => Control { phase: CoordinatorPhase::Spawning, ..self },
                CoordinatorEvent::Spawned | CoordinatorEvent::WorkerReady { .. } => {
                    let latch = self.latch_with(event);
                    Control {
                        phase: if latch.all_ready() {
                            CoordinatorPhase::Running
                        } else {
                            CoordinatorPhase::AwaitingReady
                        },
                        plan: self.plan,
                        latch: latch.opened(),
                    }
                },
                CoordinatorEvent::ReadyTimedOut | CoordinatorEvent::ChannelClosed => Control {
                    phase: CoordinatorPhase::Aborted,
                    ..self
                },
                CoordinatorEvent::Elapsed => Control { phase: CoordinatorPhase::Draining, ..self },
                CoordinatorEvent::Joined => Control { phase: CoordinatorPhase::Reporting, ..self },
                CoordinatorEvent::Totals(totals) => Control {
                    phase: if Summary::defined(self.plan, totals@) {
                        CoordinatorPhase::Done
                    } else {
                        CoordinatorPhase::Aborted
                    },
                    ..self
                },
            }
        }
    }

    /// What is to be done in answer to `event`.
    pub open spec fn order(self, event: CoordinatorEvent) -> Order {
        if !self.expects(event) {
            Order::Ignore
        } else {
            match event {
                CoordinatorEvent::Start => Order::Spawn { workers: self.plan.workers },
                CoordinatorEvent::Spawned | CoordinatorEvent::WorkerReady { .. } => {
                    if self.latch_with(event).all_ready() {
                        Order::Release { run_secs: self.plan.run_secs }
                    } else {
                        Order::AwaitReady
                    }
                },
                CoordinatorEvent::ReadyTimedOut => Order::Abort(RunError::InitializationFailure),
                CoordinatorEvent::ChannelClosed => Order::Abort(
                    RunError::ChannelInvariantViolation,
                ),
                CoordinatorEvent::Elapsed => Order::Terminate,
                CoordinatorEvent::Joined => Order::Collect,
                CoordinatorEvent::Totals(totals) => {
                    if Summary::defined(self.plan, totals@) {
                        Order::Emit(Summary::of(self.plan, totals@))
                    } else {
                        Order::Abort(RunError::DivideByZero)
                    }
                },
            }
        }
    }

    /// The coordinator after a whole history of events.
    pub open spec fn after_all(self, events: Seq<CoordinatorEvent>) -> Control
        decreases events.len(),
    {
        if events.len() == 0 {
            self
        } else {
            self.after_all(events.drop_last()).after(events.last())
        }
    }

    /// What holds of a coordinator at every moment of a run: the latch is
    /// that of the plan's pool, it is open only when every worker has
    /// signalled, and the run is under way only when it is open.
    pub open spec fn sound(self) -> bool {
        &&& self.latch.ready.len() == self.plan.workers
        &&& self.latch.sound()
        &&& self.under_way() ==> self.latch.released
    }
}

/// No event takes a coordinator out of soundness.
pub proof fn step_keeps_sound(control: Control, event: CoordinatorEvent)
    requires
        control.sound(),
    ensures
        control.after(event).sound(),
        control.after(event).plan == control.plan,
{
    let latch = control.latch_with(event);
    assert(latch.ready.len() == control.latch.ready.len());
    if control.latch.released {
        assert forall|i: int| 0 <= i < latch.ready.len() implies latch.ready[i] by {
            assert(control.latch.ready[i]);
        }
    }
}

/// Whatever happens to a run, in whatever order, the workers are let go
/// only after every one of them has signalled that it is ready.
pub proof fn released_only_when_all_ready(plan: Plan, events: Seq<CoordinatorEvent>)
    ensures
        Control::initial(plan).after_all(events).sound(),
        Control::initial(plan).after_all(events).plan == plan,
        Control::initial(plan).after_all(events).under_way() ==> Control::initial(plan).after_all(
            events,
        ).latch.all_ready(),
    decreases events.len(),
{
    if events.len() > 0 {
        released_only_when_all_ready(plan, events.drop_last());
        step_keeps_sound(Control::initial(plan).after_all(events.drop_last()), events.last());
    }
}

/// The driver of one run.
pub struct Coordinator {
    phase: CoordinatorPhase,
    config: RunConfig,
    barrier: StartBarrier,
}

impl View for Coordinator {
    type V = Control;

    closed spec fn view(&self) -> Control {
        Control { phase: self.phase, plan: self.config@, latch: self.barrier@ }
    }
}

impl Coordinator {
    /// The coordinator of a run of `config` that has not begun.
    pub fn new(config: RunConfig) -> (coordinator: Coordinator)
        ensures
            coordinator@ == Control::initial(config@),
    {
        let barrier = StartBarrier::new(config.workers);
        Coordinator { phase: CoordinatorPhase::Idle, config, barrier }
    }

    /// Where the run stands.
    pub fn phase(&self) -> (phase: CoordinatorPhase)
        ensures
            phase == self@.phase,
    {
        self.phase
    }

    /// What the run was asked to do.
    pub fn config(&self) -> (config: &RunConfig)
        ensures
            config@ == self@.plan,
    {
        &self.config
    }

    /// Whether the start barrier is open.
    pub fn is_released(&self) -> (open: bool)
        ensures
            open == self@.latch.released,
            open ==> self@.latch.all_ready(),
    {
        self.barrier.is_released()
    }

    /// Whether `event` belongs to the coordinator's phase.
    pub fn expects(&self, event: CoordinatorEvent) -> (yes: bool)
        ensures
            yes == self@.expects(event),
    {
        match event {
            CoordinatorEvent::Start => self.phase == CoordinatorPhase::Idle,
            CoordinatorEvent::Spawned => self.phase == CoordinatorPhase::Spawning,
            CoordinatorEvent::WorkerReady { .. } | CoordinatorEvent::ReadyTimedOut => self.phase
                == CoordinatorPhase::AwaitingReady,
            CoordinatorEvent::Elapsed => self.phase == CoordinatorPhase::Running,
            CoordinatorEvent::Joined => self.phase == CoordinatorPhase::Draining,
            CoordinatorEvent::Totals(_) => self.phase == CoordinatorPhase::Reporting,
            CoordinatorEvent::ChannelClosed => self.phase != CoordinatorPhase::Idle && self.phase
                != CoordinatorPhase::Done && self.phase != CoordinatorPhase::Aborted,
        }
    }

    /// Opens the barrier if every worker has signalled and says what the
    /// thread is to do: let the workers go, or wait on.
    fn release_or_wait(&mut self) -> (command: Command)
        ensures
            final(self)@ == (Control {
                phase: if old(self)@.latch.all_ready() {
                    CoordinatorPhase::Running
                } else {
                    CoordinatorPhase::AwaitingReady
                },
                plan: old(self)@.plan,
                latch: old(self)@.latch.opened(),
            }),
            command@ == if old(self)@.latch.all_ready() {
                Order::Release { run_secs: old(self)@.plan.run_secs }
            } else {
                Order::AwaitReady
            },
    {
        let all = self.barrier.all_ready();
        self.barrier.release();
        if all {
            self.phase = CoordinatorPhase::Running;
            Command::Release { run_secs: self.config.run_secs }
        } else {
            self.phase = CoordinatorPhase::AwaitingReady;
            Command::AwaitReady
        }
    }

    /// Takes `event` in and says what to do next.
    pub fn step(&mut self, event: CoordinatorEvent) -> (command: Command)
        ensures
            final(self)@ == old(self)@.after(event),
            command@ == old(self)@.order(event),
    {
        if !self.expects(event) {
            return Command::Ignore;
        }
        match event {
            CoordinatorEvent::Start => {
                self.phase = CoordinatorPhase::Spawning;
                Command::Spawn { workers: self.config.workers }
            },
            CoordinatorEvent::Spawned => self.release_or_wait(),
            CoordinatorEvent::WorkerReady { worker } => {
                self.barrier.signal_ready(worker);
                self.release_or_wait()
            },
            CoordinatorEvent::ReadyTimedOut => {
                self.phase = CoordinatorPhase::Aborted;
                Command::Abort(RunError::InitializationFailure)
            },
            CoordinatorEvent::ChannelClosed => {
                self.phase = CoordinatorPhase::Aborted;
                Command::Abort(RunError::ChannelInvariantViolation)
            },
            CoordinatorEvent::Elapsed => {
                self.phase = CoordinatorPhase::Draining;
                Command::Terminate
            },
            CoordinatorEvent::Joined => {
                self.phase = CoordinatorPhase::Reporting;
                Command::Collect
            },
            CoordinatorEvent::Totals(totals) => {
                match summarize(&self.config, &totals) {
                    Ok(report) => {
                        self.phase = CoordinatorPhase::Done;
                        Command::Emit(report)
                    },
                    Err(error) => {
                        self.phase = CoordinatorPhase::Aborted;
                        Command::Abort(error)
                    },
                }
            },
        }
    }
}

} // verus!
