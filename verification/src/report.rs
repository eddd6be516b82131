//! What a run is asked to do, and the figures that it ends in.
use vstd::prelude::*;
use vstd::arithmetic::div_mod::{lemma_fundamental_div_mod, lemma_mod_bound};
use crate::details::{RunDetails, Tally};
use crate::error::RunError;

verus! {

/// What a [`RunConfig`] stands for.
pub struct Plan {
    pub nameserver: Seq<char>,
    pub host: Seq<char>,
    pub workers: nat,
    pub run_secs: nat,
    pub timeout_nanos: nat,
}

/// What one run is asked to do.
#[derive(Clone, Debug, PartialEq, Eq)]
pub struct RunConfig {
    /// Address of the nameserver under load.
    pub nameserver: String,
    /// The hostname that every lookup asks for.
    pub host: String,
    /// Size of the pool.
    pub workers: usize,
    /// How long the pool runs, in seconds.
    pub run_secs: u64,
    /// After how many nanoseconds a lookup counts as failed.
    pub timeout_nanos: u32,
}

impl View for RunConfig {
    type V = Plan;

    open spec fn view(&self) -> Plan {
        Plan {
            nameserver: self.nameserver@,
            host: self.host@,
            workers: self.workers as nat,
            run_secs: self.run_secs as nat,
            timeout_nanos: self.timeout_nanos as nat,
        }
    }
}

/// What a [`Report`] stands for.
pub struct Summary {
    pub nameserver: Seq<char>,
    pub host: Seq<char>,
    pub worker_count: nat,
    pub successes: nat,
    pub failures: nat,
    pub success_rate: nat,
    pub run_duration_secs: nat,
    pub throughput_per_sec: nat,
}

/// The figures of a finished run.
#[derive(Clone, Debug, PartialEq, Eq)]
pub struct Report {
    pub nameserver: String,
    pub host: String,
    pub worker_count: usize,
    pub successes: u64,
    pub failures: u64,
    /// Share of the lookups that were answered, in hundredths of a percent.
    pub success_rate: u32,
    pub run_duration_secs: u64,
    /// Answered lookups per second of the run, rounded down.
    pub throughput_per_sec: u64,
}

impl View for Report {
    type V = Summary;

    open spec fn view(&self) -> Summary {
        Summary {
            nameserver: self.nameserver@,
            host: self.host@,
            worker_count: self.worker_count as nat,
            successes: self.successes as nat,
            failures: self.failures as nat,
            success_rate: self.success_rate as nat,
            run_duration_secs: self.run_duration_secs as nat,
            throughput_per_sec: self.throughput_per_sec as nat,
        }
    }
}

/// The share of `successes` among `attempts`, in hundredths of a percent,
/// rounded to the nearest, a half upwards.
pub open spec fn success_rate(successes: nat, attempts: nat) -> nat
    recommends
        attempts > 0,
{
    (20000 * successes + attempts) / (2 * attempts)
}

/// Answered lookups per second, rounded down.
pub open spec fn throughput(successes: nat, run_secs: nat) -> nat
    recommends
        run_secs > 0,
{
    successes / run_secs
}

impl Summary {
    /// Whether a run of this plan that ended in these totals has figures at
    /// all.
    pub open spec fn defined(plan: Plan, totals: Tally) -> bool {
        totals.attempts() > 0 && plan.run_secs > 0
    }

    /// The figures of a run of `plan` that ended in `totals`.
    pub open spec fn of(plan: Plan, totals: Tally) -> Summary
        recommends
            Summary::defined(plan, totals),
    {
        Summary {
            nameserver: plan.nameserver,
            host: plan.host,
            worker_count: plan.workers,
            successes: totals.successes,
            failures: totals.failures,
            success_rate: success_rate(totals.successes, totals.attempts()),
            run_duration_secs: plan.run_secs,
            throughput_per_sec: throughput(totals.successes, plan.run_secs),
        }
    }
}

/// The success rate is the multiple of a hundredth of a percent that lies
/// nearest to the true share, and it never exceeds one hundred percent.
pub proof fn success_rate_is_nearest(successes: nat, attempts: nat)
    requires
        attempts > 0,
        successes <= attempts,
    ensures
        2 * success_rate(successes, attempts) * attempts <= 20000 * successes + attempts,
        20000 * successes + attempts < 2 * (success_rate(successes, attempts) + 1) * attempts,
        success_rate(successes, attempts) <= 10000,
{
    let x = (20000 * successes + attempts) as int;
    let d = (2 * attempts) as int;
    let r = x / d;
    lemma_fundamental_div_mod(x, d);
    lemma_mod_bound(x, d);
    assert(d * r == 2 * r * attempts) by (nonlinear_arith)
        requires
            d == 2 * attempts,
    ;
    assert(2 * (r + 1) * attempts == 2 * r * attempts + d) by (nonlinear_arith)
        requires
            d == 2 * attempts,
    ;
    assert(r <= 10000) by (nonlinear_arith)
        requires
            2 * r * attempts <= x,
            x <= 20001 * attempts,
            attempts > 0,
    ;
}

/// The success rate of a run that ended in `totals`, in hundredths of a
/// percent. A run in which nothing was attempted has none.
pub fn success_rate_of(totals: &RunDetails) -> (rate: Result<u32, RunError>)
    ensures
        totals@.attempts() == 0 <==> rate == Err::<u32, RunError>(RunError::DivideByZero),
        totals@.attempts() > 0 <==> rate == Ok::<u32, RunError>(
            success_rate(totals@.successes, totals@.attempts()) as u32,
        ),
        totals@.attempts() > 0 ==> success_rate(totals@.successes, totals@.attempts()) <= 10000,
{
    let attempts: u128 = totals.attempts();
    if attempts == 0 {
        return Err(RunError::DivideByZero);
    }
    proof {
        success_rate_is_nearest(totals@.successes, totals@.attempts());
    }
    let successes: u128 = totals.successes as u128;
    let rate: u128 = (20000 * successes + attempts) / (2 * attempts);
    Ok(rate as u32)
}

/// Answered lookups per second of a run of `run_secs` seconds. A run that
/// lasted no time has no throughput.
pub fn throughput_of(totals: &RunDetails, run_secs: u64) -> (rate: Result<u64, RunError>)
    ensures
        run_secs == 0 <==> rate == Err::<u64, RunError>(RunError::DivideByZero),
        run_secs > 0 <==> rate == Ok::<u64, RunError>(
            throughput(totals@.successes, run_secs as nat) as u64,
        ),
        run_secs > 0 ==> throughput(totals@.successes, run_secs as nat) <= totals@.successes,
{
    if run_secs == 0 {
        return Err(RunError::DivideByZero);
    }
    let rate: u64 = totals.successes / run_secs;
    assert(rate <= totals.successes) by (nonlinear_arith)
        requires
            rate == totals.successes / run_secs,
            run_secs > 0,
    ;
    Ok(rate)
}

/// The report of a run of `config` that ended in `totals`, or
/// [`RunError::DivideByZero`] where nothing was attempted or the run lasted
/// no time.
pub fn summarize(config: &RunConfig, totals: &RunDetails) -> (result: Result<Report, RunError>)
    ensures
        match result {
            Ok(report) => Summary::defined(config@, totals@) && report@ == Summary::of(
                config@,
                totals@,
            ),
            Err(error) => !Summary::defined(config@, totals@) && error == RunError::DivideByZero,
        },
{
    let success_rate = match success_rate_of(totals) {
        Ok(rate) => rate,
        Err(error) => {
            return Err(error);
        },
    };
    let throughput_per_sec = match throughput_of(totals, config.run_secs) {
        Ok(rate) => rate,
        Err(error) => {
            return Err(error);
        },
    };
    Ok(
        Report {
            nameserver: config.nameserver.clone(),
            host: config.host.clone(),
            worker_count: config.workers,
            successes: totals.successes,
            failures: totals.failures,
            success_rate,
            run_duration_secs: config.run_secs,
            throughput_per_sec,
        },
    )
}

} // verus!
