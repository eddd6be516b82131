use nsbench::details::RunDetails;
use nsbench::error::RunError;
use nsbench::report::{success_rate_of, summarize, throughput_of, Report, RunConfig};

fn details(successes: u64, failures: u64, latency: u128) -> RunDetails {
    RunDetails { successes, failures, latency }
}

fn config(workers: usize, run_secs: u64) -> RunConfig {
    RunConfig {
        nameserver: String::from("192.0.2.53"),
        host: String::from("example.com."),
        workers,
        run_secs,
        timeout_nanos: 500_000,
    }
}

#[test]
fn rate_of_nothing_is_undefined() {
    assert_eq!(success_rate_of(&details(0, 0, 0)), Err(RunError::DivideByZero));
    assert_eq!(success_rate_of(&details(0, 0, 99)), Err(RunError::DivideByZero));
}

#[test]
fn rate_of_failures_alone_is_zero() {
    assert_eq!(success_rate_of(&details(0, 1, 0)), Ok(0));
    assert_eq!(success_rate_of(&details(0, u64::MAX, 0)), Ok(0));
}

#[test]
fn rate_of_successes_alone_is_one_hundred_percent() {
    assert_eq!(success_rate_of(&details(1, 0, 0)), Ok(10000));
    assert_eq!(success_rate_of(&details(u64::MAX, 0, 0)), Ok(10000));
}

#[test]
fn rate_is_in_hundredths_of_a_percent() {
    assert_eq!(success_rate_of(&details(1, 1, 0)), Ok(5000));
    assert_eq!(success_rate_of(&details(1, 3, 0)), Ok(2500));
    assert_eq!(success_rate_of(&details(1, 7, 0)), Ok(1250));
    assert_eq!(success_rate_of(&details(999, 1, 0)), Ok(9990));
    assert_eq!(success_rate_of(&details(u64::MAX, u64::MAX, 0)), Ok(5000));
}

#[test]
fn rate_is_rounded_to_the_nearest() {
    assert_eq!(success_rate_of(&details(1, 2, 0)), Ok(3333));
    assert_eq!(success_rate_of(&details(2, 1, 0)), Ok(6667));
    assert_eq!(success_rate_of(&details(1, 5, 0)), Ok(1667));
    assert_eq!(success_rate_of(&details(1, 6, 0)), Ok(1429));
    assert_eq!(success_rate_of(&details(1, 19_999, 0)), Ok(1));
    assert_eq!(success_rate_of(&details(1, 20_000, 0)), Ok(0));
    assert_eq!(success_rate_of(&details(19_999, 1, 0)), Ok(10000));
    assert_eq!(success_rate_of(&details(19_998, 2, 0)), Ok(9999));
}

#[test]
fn rate_rounds_a_half_upwards() {
    assert_eq!(success_rate_of(&details(1, 31, 0)), Ok(313));
    assert_eq!(success_rate_of(&details(3, 29, 0)), Ok(938));
    assert_eq!(success_rate_of(&details(1, 19_999, 0)), Ok(1));
    assert_eq!(success_rate_of(&details(1, 39_998, 0)), Ok(0));
}

#[test]
fn throughput_is_answered_lookups_per_second() {
    assert_eq!(throughput_of(&details(100, 50, 0), 10), Ok(10));
    assert_eq!(throughput_of(&details(99, 0, 0), 10), Ok(9));
    assert_eq!(throughput_of(&details(9, 1000, 0), 10), Ok(0));
    assert_eq!(throughput_of(&details(u64::MAX, 0, 0), 1), Ok(u64::MAX));
    assert_eq!(throughput_of(&details(0, 0, 0), 5), Ok(0));
}

#[test]
fn throughput_of_no_time_is_undefined() {
    assert_eq!(throughput_of(&details(100, 0, 0), 0), Err(RunError::DivideByZero));
    assert_eq!(throughput_of(&details(0, 0, 0), 0), Err(RunError::DivideByZero));
}

#[test]
fn report_holds_the_figures_of_the_run() {
    let report = summarize(&config(4, 60), &details(1500, 500, 123)).unwrap();
    assert_eq!(
        report,
        Report {
            nameserver: String::from("192.0.2.53"),
            host: String::from("example.com."),
            worker_count: 4,
            successes: 1500,
            failures: 500,
            success_rate: 7500,
            run_duration_secs: 60,
            throughput_per_sec: 25,
        }
    );
}

#[test]
fn no_report_without_attempts() {
    assert_eq!(summarize(&config(4, 60), &details(0, 0, 0)), Err(RunError::DivideByZero));
    assert_eq!(summarize(&config(0, 60), &details(0, 0, 0)), Err(RunError::DivideByZero));
}

#[test]
fn no_report_for_a_run_of_no_time() {
    assert_eq!(summarize(&config(4, 0), &details(10, 10, 5)), Err(RunError::DivideByZero));
    assert_eq!(summarize(&config(4, 0), &details(0, 0, 0)), Err(RunError::DivideByZero));
}

#[test]
fn report_of_failures_alone_shows_zero_percent() {
    let report = summarize(&config(2, 1), &details(0, 40, 0)).unwrap();
    assert_eq!(report.success_rate, 0);
    assert_eq!(report.throughput_per_sec, 0);
    assert_eq!(report.failures, 40);
    assert_eq!(report.successes, 0);
}
