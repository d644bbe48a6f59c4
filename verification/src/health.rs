//! Readiness signal gating whether a process may serve generation requests.

use vstd::prelude::*;

verus! {

/// A process is ready only once a worker id is bound, and, in quorum mode,
/// only while the lock that binds it is still valid.
#[derive(PartialEq, Eq, Structural, Debug, Clone, Copy)]
pub enum HealthState {
    Initializing,
    Healthy,
    Unhealthy,
}

impl HealthState {
    /// A worker id was bound: a starting process becomes ready. Lost
    /// ownership is terminal, so an unhealthy process stays unhealthy.
    pub fn on_id_bound(&self) -> (r: HealthState)
        ensures
            r == if *self is Initializing {
                HealthState::Healthy
            } else {
                *self
            },
    {
        match self {
            HealthState::Initializing => HealthState::Healthy,
            HealthState::Healthy => HealthState::Healthy,
            HealthState::Unhealthy => HealthState::Unhealthy,
        }
    }

    /// Ownership of the worker id was lost.
    pub fn on_ownership_lost(&self) -> (r: HealthState)
        ensures
            r == HealthState::Unhealthy,
    {
        HealthState::Unhealthy
    }

    /// Whether generation requests may be served.
    pub fn may_serve(&self) -> (r: bool)
        ensures
            r == (*self is Healthy),
    {
        match self {
            HealthState::Healthy => true,
            _ => false,
        }
    }
}

} // verus!
