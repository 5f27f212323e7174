//! The state that a preparation shares with those who wait for or stop it.
use crate::failure::PreparationFailure;
use vstd::prelude::*;

verus! {

/// A preparation under way, with the controller's claim on its run.
#[derive(Debug, PartialEq, Eq)]
pub struct PreparationTask<K> {
    /// Someone has asked to stop the preparation by force.
    pub cancelled: bool,
    /// The preparation has come to its end, its cleanup included.
    pub finished: bool,
    /// Why the preparation came to nothing.
    pub failure: Option<PreparationFailure>,
    /// The lease under which the controller owns the run.
    pub controller_claim: K,
}

/// A preparation that has just been accepted under a claim.
pub open spec fn accepted<K>(controller_claim: K) -> PreparationTask<K> {
    PreparationTask { cancelled: false, finished: false, failure: None, controller_claim }
}

/// The preparation once someone has asked to stop it by force.
pub open spec fn cancelling<K>(task: PreparationTask<K>) -> PreparationTask<K> {
    PreparationTask { cancelled: true, ..task }
}

/// The failure that a cleanup settles a run with.
pub open spec fn settling_failure<K>(task: PreparationTask<K>, force: bool) -> PreparationFailure {
    if force {
        PreparationFailure::stopped()
    } else if task.failure is Some {
        task.failure->0
    } else {
        PreparationFailure::lost("runtime_lost")
    }
}

impl<K> PreparationTask<K> {
    pub fn new(controller_claim: K) -> (task: Self)
        ensures
            task == accepted(controller_claim),
    {
        PreparationTask { cancelled: false, finished: false, failure: None, controller_claim }
    }

    pub fn is_finished(&self) -> (finished: bool)
        ensures
            finished == self.finished,
    {
        self.finished
    }

    /// The failure that a cleanup settles the run with.
    pub fn cleanup_failure(&self, force: bool) -> (failure: PreparationFailure)
        ensures
            failure == settling_failure(*self, force),
    {
        if force {
            PreparationFailure::cancelled()
        } else {
            match self.failure {
                Some(failure) => failure,
                None => PreparationFailure::unavailable("runtime_lost"),
            }
        }
    }
}

} // verus!
