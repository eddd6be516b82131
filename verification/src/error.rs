//! The ways in which a run can fail as a whole.
use vstd::prelude::*;

verus! {

/// Why a run was given up or yields no figures. A lookup that fails is none
/// of these: it is counted and the run goes on.
#[derive(Clone, Copy, Debug, PartialEq, Eq, Structural)]
pub enum RunError {
    /// A worker could not set up its resolver, or did not report ready.
    InitializationFailure,
    /// A channel between the parts of the pool was closed too early.
    ChannelInvariantViolation,
    /// Nothing was attempted, or the run lasted no time at all, so neither a
    /// success rate nor a throughput exists.
    DivideByZero,
}

} // verus!
