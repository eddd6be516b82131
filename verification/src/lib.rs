//! Decision logic of a concurrent DNS load generator.
//!
//! A pool of workers hammers one nameserver with lookups for one hostname.
//! Each worker keeps a local [`details::RunDetails`]; a companion sampler
//! drains it once per tick into the [`aggregator::Aggregator`]; a coordinator
//! starts all workers together, stops them after the configured duration and
//! turns the merged totals into a report.
//!
//! Nothing in this crate blocks, sleeps, spawns or touches the network. Each
//! component is a state machine: the caller performs the action that a step
//! returns and hands back the event that resulted. What the crate decides is
//! proved against the contracts of its functions.
pub mod aggregator;
pub mod barrier;
pub mod coordinator;
pub mod details;
pub mod error;
pub mod pool;
pub mod report;
pub mod resolver;
pub mod worker;
