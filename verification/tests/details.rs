use nsbench::details::RunDetails;

fn details(successes: u64, failures: u64, latency: u128) -> RunDetails {
    RunDetails { successes, failures, latency }
}

#[test]
fn new_record_is_empty() {
    assert_eq!(RunDetails::new(), details(0, 0, 0));
    assert_eq!(RunDetails::default(), details(0, 0, 0));
}

#[test]
fn reset_clears_every_field() {
    let mut d = details(7, 3, 1234);
    d.reset();
    assert_eq!(d, details(0, 0, 0));
}

#[test]
fn success_halves_the_distance_to_the_sample() {
    let mut d = RunDetails::new();
    d.record_success(100);
    assert_eq!(d, details(1, 0, 50));
    d.record_success(100);
    assert_eq!(d, details(2, 0, 75));
    d.record_success(0);
    assert_eq!(d, details(3, 0, 37));
}

#[test]
fn latency_depends_on_the_order_of_samples() {
    let mut first = RunDetails::new();
    first.record_success(10);
    first.record_success(0);
    let mut second = RunDetails::new();
    second.record_success(0);
    second.record_success(10);
    assert_eq!(first.latency, 2);
    assert_eq!(second.latency, 5);
    assert_eq!(first.successes, second.successes);
}

#[test]
fn failure_leaves_latency_alone() {
    let mut d = details(4, 0, 90);
    d.record_failure();
    d.record_failure();
    assert_eq!(d, details(4, 2, 90));
}

#[test]
fn latency_average_survives_the_largest_values() {
    let mut d = details(0, 0, u128::MAX);
    d.record_success(u128::MAX);
    assert_eq!(d.latency, u128::MAX);
    let mut e = details(0, 0, u128::MAX);
    e.record_success(u128::MAX - 1);
    assert_eq!(e.latency, u128::MAX - 1);
    let mut f = details(0, 0, 3);
    f.record_success(4);
    assert_eq!(f.latency, 3);
}

#[test]
fn merge_adds_counts_and_averages_latency() {
    let mut a = details(1, 2, 10);
    a.merge(details(3, 4, 0));
    assert_eq!(a, details(4, 6, 5));
}

#[test]
fn merge_is_commutative() {
    let a = details(5, 1, 300);
    let b = details(2, 9, 101);
    let mut ab = a;
    ab.merge(b);
    let mut ba = b;
    ba.merge(a);
    assert_eq!(ab, ba);
    assert_eq!(ab, details(7, 10, 200));
}

#[test]
fn latency_merge_depends_on_order() {
    let ten = details(0, 0, 10);
    let zero = details(0, 0, 0);
    let mut ten_first = RunDetails::new();
    ten_first.merge(ten);
    ten_first.merge(zero);
    let mut zero_first = RunDetails::new();
    zero_first.merge(zero);
    zero_first.merge(ten);
    assert_eq!(ten_first.latency, 2);
    assert_eq!(zero_first.latency, 5);
    assert_ne!(ten_first.latency, zero_first.latency);
}

#[test]
fn latency_merge_is_not_associative() {
    let a = details(1, 0, 8);
    let b = details(1, 0, 4);
    let c = details(1, 0, 0);
    let mut left = a;
    left.merge(b);
    left.merge(c);
    let mut bc = b;
    bc.merge(c);
    let mut right = a;
    right.merge(bc);
    assert_eq!(left.latency, 3);
    assert_eq!(right.latency, 5);
    assert_eq!(left.successes, right.successes);
    assert_eq!(left.failures, right.failures);
}

#[test]
fn can_merge_guards_the_range_of_the_counts() {
    let full = details(u64::MAX, 0, 0);
    assert!(full.can_merge(&details(0, 5, 0)));
    assert!(!full.can_merge(&details(1, 0, 0)));
    let nearly = details(u64::MAX - 1, u64::MAX - 2, 0);
    assert!(nearly.can_merge(&details(1, 2, 9)));
    assert!(!nearly.can_merge(&details(1, 3, 9)));
    let mut merged = nearly;
    merged.merge(details(1, 2, 9));
    assert_eq!(merged, details(u64::MAX, u64::MAX, 4));
}

#[test]
fn take_hands_out_the_window_and_starts_a_new_one() {
    let mut d = details(3, 1, 77);
    let snapshot = d.take();
    assert_eq!(snapshot, details(3, 1, 77));
    assert_eq!(d, details(0, 0, 0));
    assert_eq!(d.take(), details(0, 0, 0));
}

#[test]
fn attempts_is_the_sum_of_both_counts() {
    assert_eq!(details(3, 4, 0).attempts(), 7);
    assert_eq!(details(u64::MAX, u64::MAX, 0).attempts(), 2 * (u64::MAX as u128));
    assert_eq!(RunDetails::new().attempts(), 0);
}
