use nsbench::resolver::{ResolverSettings, Transport, DNS_PORT};

#[test]
fn worker_resolver_never_answers_from_memory() {
    let settings = ResolverSettings::for_worker(500_000);
    assert_eq!(settings.cache_size, 0);
    assert_eq!(settings.positive_min_ttl_secs, Some(0));
    assert_eq!(settings.positive_max_ttl_secs, Some(0));
    assert_eq!(settings.negative_min_ttl_secs, Some(0));
    assert_eq!(settings.negative_max_ttl_secs, Some(0));
}

#[test]
fn worker_resolver_asks_one_nameserver_over_udp() {
    let settings = ResolverSettings::for_worker(1);
    assert_eq!(DNS_PORT, 53);
    assert_eq!(settings.port, 53);
    assert_eq!(settings.transport, Transport::Udp);
    assert!(settings.trust_negative_responses);
    assert!(!settings.rotate);
}

#[test]
fn worker_resolver_keeps_the_timeout() {
    assert_eq!(ResolverSettings::for_worker(0).timeout_nanos, 0);
    assert_eq!(ResolverSettings::for_worker(500_000).timeout_nanos, 500_000);
    assert_eq!(ResolverSettings::for_worker(u32::MAX).timeout_nanos, u32::MAX);
}
