//! How each worker's resolver is to be set up.
use vstd::prelude::*;

verus! {

/// The port that nameservers listen on.
pub const DNS_PORT: u16 = 53;

/// How a resolver talks to the nameserver.
#[derive(Clone, Copy, Debug, PartialEq, Eq, Structural)]
pub enum Transport {
    Udp,
    Tcp,
}

/// The settings of a resolver, as plain values. Whoever builds the
/// resolver copies them over one by one.
#[derive(Clone, Copy, Debug, PartialEq, Eq, Structural)]
pub struct ResolverSettings {
    /// Port of the nameserver.
    pub port: u16,
    pub transport: Transport,
    /// Whether a negative answer of the nameserver is final.
    pub trust_negative_responses: bool,
    /// Whether to rotate through the nameservers.
    pub rotate: bool,
    /// How many answers the resolver may keep.
    pub cache_size: usize,
    /// After how many nanoseconds a lookup counts as failed.
    pub timeout_nanos: u32,
    /// Bounds, in seconds, on how long an answer may be kept.
    pub positive_min_ttl_secs: Option<u64>,
    pub positive_max_ttl_secs: Option<u64>,
    pub negative_min_ttl_secs: Option<u64>,
    pub negative_max_ttl_secs: Option<u64>,
}

impl ResolverSettings {
    /// Whether a resolver set up like this answers nothing from memory:
    /// it has no cache, and what it is told may be kept for no time.
    pub open spec fn uncached(self) -> bool {
        &&& self.cache_size == 0
        &&& self.positive_min_ttl_secs == Some(0u64)
        &&& self.positive_max_ttl_secs == Some(0u64)
        &&& self.negative_min_ttl_secs == Some(0u64)
        &&& self.negative_max_ttl_secs == Some(0u64)
    }

    /// The settings of a worker's resolver: every lookup goes to the one
    /// nameserver over UDP, is bounded by `timeout_nanos`, and is never
    /// answered from a cache.
    pub fn for_worker(timeout_nanos: u32) -> (settings: ResolverSettings)
        ensures
            settings.uncached(),
            settings.timeout_nanos == timeout_nanos,
            settings.port == DNS_PORT,
            settings.transport == Transport::Udp,
            settings.trust_negative_responses,
            !settings.rotate,
    {
        ResolverSettings {
            port: DNS_PORT,
            transport: Transport::Udp,
            trust_negative_responses: true,
            rotate: false,
            cache_size: 0,
            timeout_nanos,
            positive_min_ttl_secs: Some(0),
            positive_max_ttl_secs: Some(0),
            negative_min_ttl_secs: Some(0),
            negative_max_ttl_secs: Some(0),
        }
    }
}

} // verus!
