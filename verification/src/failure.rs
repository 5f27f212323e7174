//! What can go wrong while a run is prepared, and how it is reported.
use vstd::prelude::*;

verus! {

/// How the runtime of a run came to its end.
#[derive(Clone, Copy, Debug, PartialEq, Eq, Structural)]
pub enum RunRuntimeExit {
    RuntimeLost,
    ForceStopped,
}

/// Why no capsule could be allocated for a run.
#[derive(Clone, Copy, Debug, PartialEq, Eq, Structural)]
pub enum CapsuleAllocationUnavailable {
    Runtime,
    EnvironmentSetup,
    EnvironmentStartup,
}

/// The processes or the output of a run could not be brought to an end.
#[derive(Clone, Copy, Debug, PartialEq, Eq, Structural)]
pub struct CapsuleCleanupUnavailable;

/// Why a preparation came to nothing: the reason that the ledger records, and
/// the exit with which the capsule is destroyed.
#[derive(Clone, Copy, Debug, PartialEq, Eq)]
pub struct PreparationFailure {
    pub reason: &'static str,
    pub exit: RunRuntimeExit,
}

impl PreparationFailure {
    /// A runtime that could not be had, under the given reason.
    pub open spec fn lost(reason: &'static str) -> PreparationFailure {
        PreparationFailure { reason, exit: RunRuntimeExit::RuntimeLost }
    }

    /// A preparation that was stopped by force.
    pub open spec fn stopped() -> PreparationFailure {
        PreparationFailure { reason: "force_stopped", exit: RunRuntimeExit::ForceStopped }
    }

    pub fn unavailable(reason: &'static str) -> (failure: Self)
        ensures
            failure == PreparationFailure::lost(reason),
    {
        PreparationFailure { reason, exit: RunRuntimeExit::RuntimeLost }
    }

    pub fn cancelled() -> (failure: Self)
        ensures
            failure == PreparationFailure::stopped(),
    {
        PreparationFailure { reason: "force_stopped", exit: RunRuntimeExit::ForceStopped }
    }
}

/// A failure that is no stop by force counts as a lost runtime and keeps its
/// reason, whatever that is; a stop by force has a reason and an exit of its own.
pub proof fn failures_keep_their_reason(reason: &'static str)
    ensures
        PreparationFailure::lost(reason).reason == reason,
        PreparationFailure::lost(reason).exit == RunRuntimeExit::RuntimeLost,
        PreparationFailure::stopped().reason == "force_stopped",
        PreparationFailure::stopped().exit == RunRuntimeExit::ForceStopped,
{
}

} // verus!
