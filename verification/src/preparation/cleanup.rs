//! Cleanup of a preparation, on its own account, after a restart or by force.
//!
//! The slot of a run is freed only by a cleanup that succeeds.  After one that
//! failed the run is still owned, so that a later cleanup can try again.
use crate::failure::PreparationFailure;
use crate::preparation::runtimes::RuntimeSlot;
use crate::preparation::task::{cancelling, settling_failure, PreparationTask};
use crate::run_id::RunId;
use crate::run_map::RunMap;
use crate::text::same_text;
use vstd::prelude::*;

verus! {

/// Why a cleanup did not come to its end.
#[derive(Debug, PartialEq, Eq)]
pub enum CleanupError<E> {
    Ledger(E),
    /// The capsule could neither be destroyed nor be confirmed absent.
    RuntimeCleanup,
}

/// A cleanup: what the host does next for it.
#[derive(Debug, PartialEq, Eq)]
pub enum PreparationCleanup<E> {
    /// Look the run up in the ledger.
    LookUp,
    /// The run has its result already: let those who observe it know that its
    /// runtime is finished.
    Retire,
    /// Destroy the capsule, or confirm that it is absent, with the exit of the
    /// failure.
    Destroy { failure: PreparationFailure },
    /// Record in the ledger that the run is to be stopped by force.
    RequestForceStop { failure: PreparationFailure },
    /// Append the result of the run, with the reason of the failure.
    Append { failure: PreparationFailure },
    /// Free the slot of the run, as `PreparationCleanup::release` does.
    Release,
    Settled(Result<(), CleanupError<E>>),
}

/// A reply of the host to a cleanup.
#[derive(Debug, PartialEq, Eq)]
pub enum CleanupEvent<E> {
    /// Whether the run that was found has a result; none if there is no run.
    LookedUp(Result<Option<bool>, E>),
    Retired,
    /// Whether the capsule is known to be gone.
    Destroyed(bool),
    ForceStopRequested(Result<(), E>),
    Appended(Result<(), E>),
}

/// The failure has to be recorded as a stop by force.
pub open spec fn stops_by_force(failure: PreparationFailure, force: bool) -> bool {
    force || failure.reason@ == "force_stopped"@
}

/// A cleanup after a reply.
pub open spec fn preparation_cleanup_next<K, E>(
    step: PreparationCleanup<E>,
    task: PreparationTask<K>,
    force: bool,
    event: CleanupEvent<E>,
) -> PreparationCleanup<E> {
    match (step, event) {
        (PreparationCleanup::LookUp, CleanupEvent::LookedUp(reply)) => match reply {
            Ok(found) => if found == Some(true) {
                PreparationCleanup::Retire
            } else {
                PreparationCleanup::Destroy { failure: settling_failure(task, force) }
            },
            Err(error) => PreparationCleanup::Settled(Err(CleanupError::Ledger(error))),
        },
        (PreparationCleanup::Retire, CleanupEvent::Retired) => PreparationCleanup::Release,
        (PreparationCleanup::Destroy { failure }, CleanupEvent::Destroyed(gone)) => if !gone {
            PreparationCleanup::Settled(Err(CleanupError::RuntimeCleanup))
        } else if stops_by_force(failure, force) {
            PreparationCleanup::RequestForceStop { failure }
        } else {
            PreparationCleanup::Append { failure }
        },
        (
            PreparationCleanup::RequestForceStop { failure },
            CleanupEvent::ForceStopRequested(reply),
        ) => match reply {
            Ok(_) => PreparationCleanup::Append { failure },
            Err(error) => PreparationCleanup::Settled(Err(CleanupError::Ledger(error))),
        },
        (PreparationCleanup::Append { .. }, CleanupEvent::Appended(reply)) => match reply {
            Ok(_) => PreparationCleanup::Release,
            Err(error) => PreparationCleanup::Settled(Err(CleanupError::Ledger(error))),
        },
        _ => step,
    }
}

/// The runtimes and a cleanup once the slot of the run is freed, if that is due.
/// With the slot goes the claim on the run.
pub open spec fn release_next<T, G, E>(
    runtimes: Map<Seq<char>, RuntimeSlot<T, G>>,
    run: Seq<char>,
    step: PreparationCleanup<E>,
) -> (Map<Seq<char>, RuntimeSlot<T, G>>, PreparationCleanup<E>) {
    match step {
        PreparationCleanup::Release => (runtimes.remove(run), PreparationCleanup::Settled(Ok(()))),
        _ => (runtimes, step),
    }
}

impl<E> PreparationCleanup<E> {
    /// Starts a cleanup.
    pub fn retry_preparation_cleanup() -> (step: Self)
        ensures
            step == PreparationCleanup::<E>::LookUp,
    {
        PreparationCleanup::LookUp
    }

    /// Takes the reply to the current step.
    pub fn next<K>(self, task: &PreparationTask<K>, force: bool, event: CleanupEvent<E>) -> (step:
        Self)
        ensures
            step == preparation_cleanup_next(self, *task, force, event),
    {
        match (self, event) {
            (PreparationCleanup::LookUp, CleanupEvent::LookedUp(reply)) => match reply {
                Ok(found) => match found {
                    Some(true) => PreparationCleanup::Retire,
                    _ => PreparationCleanup::Destroy { failure: task.cleanup_failure(force) },
                },
                Err(error) => PreparationCleanup::Settled(Err(CleanupError::Ledger(error))),
            },
            (PreparationCleanup::Retire, CleanupEvent::Retired) => PreparationCleanup::Release,
            (PreparationCleanup::Destroy { failure }, CleanupEvent::Destroyed(gone)) => if !gone {
                PreparationCleanup::Settled(Err(CleanupError::RuntimeCleanup))
            } else if force || same_text(failure.reason, "force_stopped") {
                PreparationCleanup::RequestForceStop { failure }
            } else {
                PreparationCleanup::Append { failure }
            },
            (
                PreparationCleanup::RequestForceStop { failure },
                CleanupEvent::ForceStopRequested(reply),
            ) => match reply {
                Ok(()) => PreparationCleanup::Append { failure },
                Err(error) => PreparationCleanup::Settled(Err(CleanupError::Ledger(error))),
            },
            (PreparationCleanup::Append { .. }, CleanupEvent::Appended(reply)) => match reply {
                Ok(()) => PreparationCleanup::Release,
                Err(error) => PreparationCleanup::Settled(Err(CleanupError::Ledger(error))),
            },
            (step, _) => step,
        }
    }

    /// Frees the slot of the run, if that is due.
    pub fn release<T, G>(self, runtimes: &mut RunMap<RuntimeSlot<T, G>>, run_id: &RunId) -> (step:
        Self)
        requires
            old(runtimes).well_formed(),
        ensures
            final(runtimes).well_formed(),
            (final(runtimes)@, step) == release_next(old(runtimes)@, run_id@, self),
    {
        match self {
            PreparationCleanup::Release => {
                runtimes.remove(run_id);
                PreparationCleanup::Settled(Ok(()))
            },
            step => step,
        }
    }
}

/// A stop by force of a run that is being prepared: what the host does next.
#[derive(Debug, PartialEq, Eq)]
pub enum ForcePreparing<E> {
    /// Wait until the preparation is over.
    Await,
    /// Look up what the run has for a runtime now, as `ForcePreparing::look_up`
    /// does.
    LookUp,
    /// Stop the graph of the run by force.
    ForceRunning,
    /// Clean up, by force or not.
    Cleanup { force: bool },
    Settled(Result<(), E>),
}

/// A reply of the host to a stop by force.
#[derive(Debug, PartialEq, Eq)]
pub enum ForceEvent<E> {
    Finished,
    RunningForced(Result<(), E>),
    Cleaned(Result<(), E>),
}

/// A stop by force after a reply.  It goes on only once the preparation is over.
pub open spec fn force_next<E>(
    step: ForcePreparing<E>,
    finished: bool,
    event: ForceEvent<E>,
) -> ForcePreparing<E> {
    match (step, event) {
        (ForcePreparing::Await, ForceEvent::Finished) => if finished {
            ForcePreparing::LookUp
        } else {
            step
        },
        (ForcePreparing::ForceRunning, ForceEvent::RunningForced(reply)) => {
            ForcePreparing::Settled(reply)
        },
        (ForcePreparing::Cleanup { .. }, ForceEvent::Cleaned(reply)) => {
            ForcePreparing::Settled(reply)
        },
        _ => step,
    }
}

/// A stop by force once it is known what the run has for a runtime: a graph is
/// stopped, a preparation is cleaned up, and a run without either is done with.
pub open spec fn look_up_next<T, G, E>(
    runtimes: Map<Seq<char>, RuntimeSlot<T, G>>,
    run: Seq<char>,
    step: ForcePreparing<E>,
) -> ForcePreparing<E> {
    match step {
        ForcePreparing::LookUp => if !runtimes.contains_key(run) {
            ForcePreparing::Settled(Ok(()))
        } else {
            match runtimes[run] {
                RuntimeSlot::Running(_) => ForcePreparing::ForceRunning,
                RuntimeSlot::Preparing(_) => ForcePreparing::Cleanup { force: true },
            }
        },
        _ => step,
    }
}

impl<E> ForcePreparing<E> {
    /// Starts to stop a run by force: its preparation is cancelled at once.
    pub fn force_preparing<K>(task: &mut PreparationTask<K>) -> (step: Self)
        ensures
            step == ForcePreparing::<E>::Await,
            *final(task) == cancelling(*old(task)),
    {
        task.cancelled = true;
        ForcePreparing::Await
    }

    /// Takes the reply to the current step.
    pub fn next<K>(self, task: &PreparationTask<K>, event: ForceEvent<E>) -> (step: Self)
        ensures
            step == force_next(self, task.finished, event),
    {
        match (self, event) {
            (ForcePreparing::Await, ForceEvent::Finished) => if task.is_finished() {
                ForcePreparing::LookUp
            } else {
                ForcePreparing::Await
            },
            (ForcePreparing::ForceRunning, ForceEvent::RunningForced(reply)) => {
                ForcePreparing::Settled(reply)
            },
            (ForcePreparing::Cleanup { .. }, ForceEvent::Cleaned(reply)) => {
            ForcePreparing::Settled(reply)
        },
            (step, _) => step,
        }
    }

    /// Looks up what the run has for a runtime, if that is due.
    pub fn look_up<T, G>(self, runtimes: &RunMap<RuntimeSlot<T, G>>, run_id: &RunId) -> (step: Self)
        requires
            runtimes.well_formed(),
        ensures
            step == look_up_next(runtimes@, run_id@, self),
    {
        match self {
            ForcePreparing::LookUp => match runtimes.get(run_id) {
                Some(RuntimeSlot::Running(_)) => ForcePreparing::ForceRunning,
                Some(RuntimeSlot::Preparing(_)) => ForcePreparing::Cleanup { force: true },
                None => ForcePreparing::Settled(Ok(())),
            },
            step => step,
        }
    }
}

} // verus!
