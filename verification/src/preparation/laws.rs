//! What holds of a preparation from its allocation to the result of its run.
use crate::failure::{PreparationFailure, RunRuntimeExit};
use crate::history::among;
use crate::preparation::capsule::{capsule_next, CapsuleEvent, PrepareCapsule};
use crate::preparation::cleanup::stops_by_force;
use crate::preparation::cleanup_laws::{
    appends, destroys, preparation_cleanup_run, records_the_stop,
    results_follow_the_end_of_the_capsule, CleanupCase, CleanupMove,
};
use crate::preparation::owner::{owner_invariant, owner_next, OwnerEvent, PreparationOwner};
use crate::preparation::prepare::{
    allocation_of, cancelled_preparations_never_start, preparations_cancelled_before_do_nothing,
    prepare_run_next, prepare_run_run, stops, PrepareRun, PrepareRunEvent, PrepareRunMove,
};
use crate::preparation::task::{settling_failure, PreparationTask};
use vstd::prelude::*;

verus! {

/// The state that a preparation shares once it has ended with a failure.
pub open spec fn failed_with<K>(
    task: PreparationTask<K>,
    failure: PreparationFailure,
) -> PreparationTask<K> {
    owner_next(PreparationOwner::Prepare, task, OwnerEvent::Prepared(Err(failure))).1
}

/// A preparation that is cancelled before its run is handed over, be it before
/// it begins, ends the run as one that was stopped by force.  Whoever cleans up,
/// with force or without, the capsule is gone and the stop is recorded before
/// the run gets that result.
pub proof fn cancelled_preparations_end_as_stopped<C, K, G, E>(
    cancelled: bool,
    moves: Seq<(bool, PrepareRunMove<C>)>,
    task: PreparationTask<K>,
    case: CleanupCase<K, G>,
    cleanup: Seq<CleanupMove<E>>,
)
    requires
        cancelled || among(moves, stops(cancelled)),
        owner_invariant(PreparationOwner::Prepare, task),
        case.task == failed_with(task, PreparationFailure::stopped()),
    ensures
        prepare_run_run(cancelled, moves) == PrepareRun::<C>::Settled(
            Err(PreparationFailure::stopped()),
        ),
        ({
            let step = preparation_cleanup_run(case, cleanup).1;
            &&& settling_failure(case.task, case.force) == PreparationFailure::stopped()
            &&& step is Destroy ==> step->Destroy_failure.exit == RunRuntimeExit::ForceStopped
            &&& step is Append ==> step->Append_failure.reason@ == "force_stopped"@
            &&& among(cleanup, appends(case)) ==> among(cleanup, destroys(case)) && among(
                cleanup,
                records_the_stop(case),
            )
        }),
{
    if cancelled {
        preparations_cancelled_before_do_nothing(moves);
    } else {
        cancelled_preparations_never_start(cancelled, moves);
    }
    results_follow_the_end_of_the_capsule(case, cleanup);
    assert(stops_by_force(PreparationFailure::stopped(), case.force));
}

/// A run whose capsule was refused gets the code of the refusal as its result,
/// but only once it is certain that no capsule of it is left.
pub proof fn refusals_are_cleaned_up_before_their_result<C, K, G, E>(
    retained: bool,
    token: Option<String>,
    code: &'static str,
    task: PreparationTask<K>,
    case: CleanupCase<K, G>,
    cleanup: Seq<CleanupMove<E>>,
)
    requires
        owner_invariant(PreparationOwner::Prepare, task),
        case.task == failed_with(task, PreparationFailure::lost(code)),
        !case.force,
    ensures
        ({
            let failure = PreparationFailure::lost(code);
            let step = preparation_cleanup_run(case, cleanup).1;
            &&& capsule_next(
                PrepareCapsule::<C>::Allocate { retained, github_token: token },
                CapsuleEvent::AllocationRefused(code),
            ) == PrepareCapsule::<C>::Settled(Err(failure))
            &&& prepare_run_next(
                PrepareRun::<C>::Allocate,
                false,
                PrepareRunEvent::Woken {
                    timed_out: false,
                    allocation: allocation_of(Err(failure)),
                },
            ) == PrepareRun::<C>::Settled(Err(failure))
            &&& step is Destroy ==> step->Destroy_failure.exit == RunRuntimeExit::RuntimeLost
            &&& step is Append ==> step->Append_failure.reason@ == code@
            &&& among(cleanup, appends(case)) ==> among(cleanup, destroys(case))
        }),
{
    results_follow_the_end_of_the_capsule(case, cleanup);
}

/// A run that is owned without a known failure, as after a restart, gets the
/// result that its runtime was lost, once no capsule of it is left.
pub proof fn orphans_end_as_lost<K, G, E>(case: CleanupCase<K, G>, cleanup: Seq<CleanupMove<E>>)
    requires
        case.task.failure is None,
        !case.force,
    ensures
        ({
            let step = preparation_cleanup_run(case, cleanup).1;
            &&& step is Destroy ==> step->Destroy_failure.exit == RunRuntimeExit::RuntimeLost
            &&& step is Append ==> step->Append_failure.reason@ == "runtime_lost"@
            &&& among(cleanup, appends(case)) ==> among(cleanup, destroys(case))
        }),
{
    results_follow_the_end_of_the_capsule(case, cleanup);
}

} // verus!
