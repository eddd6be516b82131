use nsbench::aggregator::Aggregator;
use nsbench::coordinator::{Command, Coordinator, CoordinatorEvent};
use nsbench::details::RunDetails;
use nsbench::error::RunError;
use nsbench::report::{summarize, RunConfig};
use nsbench::worker::{Worker, WorkerAction, WorkerEvent, WorkerPhase};

fn config(workers: usize, run_secs: u64) -> RunConfig {
    RunConfig {
        nameserver: String::from("203.0.113.9"),
        host: String::from("load.test."),
        workers,
        run_secs,
        timeout_nanos: 500_000,
    }
}

/// Drives one worker through `iterations` lookups whose outcomes `outcome`
/// decides, with a sampler tick after every `tick_every` lookups, and
/// hands everything that the worker sends to the aggregator. Returns how
/// many lookups the worker was told to perform.
fn run_worker(
    aggregator: &mut Aggregator,
    iterations: u64,
    tick_every: u64,
    outcome: &dyn Fn(u64) -> bool,
) -> u64 {
    let mut worker = Worker::new();
    assert_eq!(worker.step(WorkerEvent::ResolverReady), WorkerAction::SignalReady);
    assert_eq!(worker.step(WorkerEvent::Released), WorkerAction::CheckSignal);
    let mut lookups = 0;
    for turn in 0..iterations {
        assert_eq!(worker.step(WorkerEvent::Signal { terminated: false }), WorkerAction::Lookup);
        lookups += 1;
        let event = if outcome(turn) {
            WorkerEvent::Answered { elapsed_nanos: 1000 + turn as u128 }
        } else {
            WorkerEvent::Failed
        };
        assert!(worker.can_count(event));
        assert_eq!(worker.step(event), WorkerAction::CheckSignal);
        if tick_every > 0 && (turn + 1) % tick_every == 0 {
            match worker.step(WorkerEvent::Tick) {
                WorkerAction::Forward(sample) => {
                    assert!(aggregator.has_room_for(&sample));
                    aggregator.absorb(sample, 400_000_000 * (turn as u128 % 4));
                }
                other => panic!("a live worker forwards its window, not {:?}", other),
            }
        }
    }
    assert_eq!(worker.step(WorkerEvent::Signal { terminated: true }), WorkerAction::StopSampler);
    match worker.step(WorkerEvent::SamplerStopped) {
        WorkerAction::ReportFinal(last) => {
            assert!(aggregator.has_room_for(&last));
            aggregator.conclude(last);
        }
        other => panic!("a stopping worker hands in its last record, not {:?}", other),
    }
    assert_eq!(worker.phase(), WorkerPhase::Finished);
    lookups
}

#[test]
fn every_iteration_is_counted_once() {
    for workers in 1..=5u64 {
        for tick_every in [0u64, 1, 3, 7, 100] {
            let mut aggregator = Aggregator::new();
            let mut lookups = 0;
            for worker in 0..workers {
                lookups += run_worker(&mut aggregator, 50 + worker, tick_every, &|_| true);
            }
            let totals = aggregator.totals();
            assert_eq!(totals.successes, lookups);
            assert_eq!(totals.failures, 0);
            assert_eq!(totals.attempts(), lookups as u128);
        }
    }
}

#[test]
fn mixed_outcomes_are_counted_once_each() {
    let mut aggregator = Aggregator::new();
    let lookups = run_worker(&mut aggregator, 90, 4, &|turn| turn % 3 != 0);
    assert_eq!(lookups, 90);
    assert_eq!(aggregator.totals().successes, 60);
    assert_eq!(aggregator.totals().failures, 30);
}

#[test]
fn resolver_that_always_fails_gives_zero_percent() {
    let workers = 3u64;
    let iterations = 25u64;
    let mut aggregator = Aggregator::new();
    for _ in 0..workers {
        run_worker(&mut aggregator, iterations, 5, &|_| false);
    }
    let totals = aggregator.totals();
    assert_eq!(totals.successes, 0);
    assert_eq!(totals.failures, workers * iterations);
    assert_eq!(totals.latency, 0);
    let report = summarize(&config(workers as usize, 10), &totals).unwrap();
    assert_eq!(report.success_rate, 0);
    assert_eq!(report.failures, 75);
    assert_eq!(report.throughput_per_sec, 0);
}

#[test]
fn run_of_no_time_surfaces_divide_by_zero() {
    let mut aggregator = Aggregator::new();
    run_worker(&mut aggregator, 10, 2, &|_| true);
    let totals = aggregator.totals();
    assert_eq!(totals.successes, 10);
    assert_eq!(summarize(&config(1, 0), &totals), Err(RunError::DivideByZero));
    let mut coordinator = Coordinator::new(config(1, 0));
    coordinator.step(CoordinatorEvent::Start);
    coordinator.step(CoordinatorEvent::Spawned);
    assert_eq!(
        coordinator.step(CoordinatorEvent::WorkerReady { worker: 0 }),
        Command::Release { run_secs: 0 }
    );
    coordinator.step(CoordinatorEvent::Elapsed);
    coordinator.step(CoordinatorEvent::Joined);
    assert_eq!(
        coordinator.step(CoordinatorEvent::Totals(totals)),
        Command::Abort(RunError::DivideByZero)
    );
}

#[test]
fn alternating_resolver_gives_fifty_percent() {
    let mut aggregator = Aggregator::new();
    let mut lookups = 0;
    for _ in 0..4 {
        lookups += run_worker(&mut aggregator, 1000, 10, &|turn| turn % 2 == 0);
    }
    let totals = aggregator.totals();
    assert_eq!(lookups, 4000);
    assert_eq!(totals.successes, 2000);
    assert_eq!(totals.failures, 2000);
    let report = summarize(&config(4, 20), &totals).unwrap();
    assert_eq!(report.success_rate, 5000);
    assert_eq!(report.worker_count, 4);
    assert_eq!(report.throughput_per_sec, 100);
}

#[test]
fn alternating_resolver_with_odd_counts_rounds_to_the_nearest() {
    let mut aggregator = Aggregator::new();
    for _ in 0..4 {
        run_worker(&mut aggregator, 1001, 10, &|turn| turn % 2 == 0);
    }
    let totals = aggregator.totals();
    assert_eq!(totals.successes, 2004);
    assert_eq!(totals.failures, 2000);
    let report = summarize(&config(4, 20), &totals).unwrap();
    assert_eq!(report.success_rate, 5005);
}

#[test]
fn no_worker_starts_before_all_are_ready() {
    let mut coordinator = Coordinator::new(config(3, 1));
    let mut workers = vec![Worker::new(), Worker::new(), Worker::new()];
    coordinator.step(CoordinatorEvent::Start);
    let mut command = coordinator.step(CoordinatorEvent::Spawned);
    for (index, worker) in workers.iter_mut().enumerate() {
        assert_eq!(command, Command::AwaitReady);
        assert!(!coordinator.is_released());
        assert_eq!(worker.step(WorkerEvent::ResolverReady), WorkerAction::SignalReady);
        assert_eq!(worker.step(WorkerEvent::Signal { terminated: false }), WorkerAction::Ignore);
        command = coordinator.step(CoordinatorEvent::WorkerReady { worker: index });
    }
    assert_eq!(command, Command::Release { run_secs: 1 });
    assert!(coordinator.is_released());
    for worker in workers.iter_mut() {
        assert_eq!(worker.step(WorkerEvent::Released), WorkerAction::CheckSignal);
        assert_eq!(worker.step(WorkerEvent::Signal { terminated: false }), WorkerAction::Lookup);
    }
}

#[test]
fn workers_leave_their_loops_after_the_lookup_in_flight() {
    let mut polling = Worker::new();
    polling.step(WorkerEvent::ResolverReady);
    polling.step(WorkerEvent::Released);
    let mut querying = Worker::new();
    querying.step(WorkerEvent::ResolverReady);
    querying.step(WorkerEvent::Released);
    querying.step(WorkerEvent::Signal { terminated: false });
    assert_eq!(polling.step(WorkerEvent::Signal { terminated: true }), WorkerAction::StopSampler);
    assert_eq!(querying.step(WorkerEvent::Failed), WorkerAction::CheckSignal);
    assert_eq!(
        querying.step(WorkerEvent::Signal { terminated: true }),
        WorkerAction::StopSampler
    );
    assert_eq!(
        querying.step(WorkerEvent::SamplerStopped),
        WorkerAction::ReportFinal(RunDetails { successes: 0, failures: 1, latency: 0 })
    );
}
