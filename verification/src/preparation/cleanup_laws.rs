//! What a cleanup of a preparation goes through, over all replies.
use crate::failure::RunRuntimeExit;
use crate::history::{among, found_among_the_first, found_at, found_before_or_last};
use crate::preparation::cleanup::{
    force_next, look_up_next, preparation_cleanup_next, release_next, stops_by_force, CleanupEvent,
    ForceEvent, ForcePreparing, PreparationCleanup,
};
use crate::preparation::runtimes::RuntimeSlot;
use crate::preparation::task::{settling_failure, PreparationTask};
use vstd::prelude::*;

verus! {

/// What a cleanup is about: the runtimes as it finds them, the run and its
/// preparation, and whether it cleans up by force.
pub struct CleanupCase<K, G> {
    pub runtimes: Map<Seq<char>, RuntimeSlot<PreparationTask<K>, G>>,
    pub run: Seq<char>,
    pub task: PreparationTask<K>,
    pub force: bool,
}

/// What moves a cleanup: a reply of the host, or the release of the slot.
pub enum CleanupMove<E> {
    Reply(CleanupEvent<E>),
    Release,
}

/// The runtimes and a cleanup after these moves, in order.
pub open spec fn preparation_cleanup_run<K, G, E>(
    case: CleanupCase<K, G>,
    moves: Seq<CleanupMove<E>>,
) -> (Map<Seq<char>, RuntimeSlot<PreparationTask<K>, G>>, PreparationCleanup<E>)
    decreases moves.len(),
{
    if moves.len() == 0 {
        (case.runtimes, PreparationCleanup::LookUp)
    } else {
        let (now, step) = preparation_cleanup_run(case, moves.drop_last());
        match moves.last() {
            CleanupMove::Reply(event) => (
                now,
                preparation_cleanup_next(step, case.task, case.force, event),
            ),
            CleanupMove::Release => release_next(now, case.run, step),
        }
    }
}

/// The reply retires a run that has its result already.
pub open spec fn retires<K, G, E>(case: CleanupCase<K, G>) -> spec_fn(
    Seq<CleanupMove<E>>,
    CleanupMove<E>,
) -> bool {
    |before: Seq<CleanupMove<E>>, by: CleanupMove<E>|
        {
            &&& preparation_cleanup_run(case, before).1 is Retire
            &&& by == CleanupMove::Reply(CleanupEvent::<E>::Retired)
        }
}

/// The reply confirms that the capsule is gone.
pub open spec fn destroys<K, G, E>(case: CleanupCase<K, G>) -> spec_fn(
    Seq<CleanupMove<E>>,
    CleanupMove<E>,
) -> bool {
    |before: Seq<CleanupMove<E>>, by: CleanupMove<E>|
        {
            &&& preparation_cleanup_run(case, before).1 is Destroy
            &&& by == CleanupMove::Reply(CleanupEvent::<E>::Destroyed(true))
        }
}

/// The reply confirms that the stop by force is recorded.
pub open spec fn records_the_stop<K, G, E>(case: CleanupCase<K, G>) -> spec_fn(
    Seq<CleanupMove<E>>,
    CleanupMove<E>,
) -> bool {
    |before: Seq<CleanupMove<E>>, by: CleanupMove<E>|
        {
            &&& preparation_cleanup_run(case, before).1 is RequestForceStop
            &&& by is Reply && by->Reply_0 is ForceStopRequested && by->Reply_0->ForceStopRequested_0 is Ok
        }
}

/// The reply confirms that the result of the run is appended.
pub open spec fn appends<K, G, E>(case: CleanupCase<K, G>) -> spec_fn(
    Seq<CleanupMove<E>>,
    CleanupMove<E>,
) -> bool {
    |before: Seq<CleanupMove<E>>, by: CleanupMove<E>|
        {
            &&& preparation_cleanup_run(case, before).1 is Append
            &&& by is Reply && by->Reply_0 is Appended && by->Reply_0->Appended_0 is Ok
        }
}

/// What a cleanup has done by the time that it is at its step.
///
/// - The failure that it settles the run with never changes.
/// - The result is appended only once the capsule is gone, and, for a stop by
///   force, once that stop is recorded.
/// - A capsule that is not known to be gone leaves nothing recorded or appended.
/// - The slot of the run is freed by a cleanup that succeeds and by no other.
/// - A cleanup that succeeds has appended the result, unless the run had one.
pub proof fn results_follow_the_end_of_the_capsule<K, G, E>(
    case: CleanupCase<K, G>,
    moves: Seq<CleanupMove<E>>,
)
    ensures
        ({
            let (now, step) = preparation_cleanup_run(case, moves);
            let retired = among(moves, retires(case));
            let gone = among(moves, destroys(case));
            let recorded = among(moves, records_the_stop(case));
            let done = among(moves, appends(case));
            let settling = settling_failure(case.task, case.force);
            let by_force = stops_by_force(settling, case.force);
            &&& done ==> gone
            &&& done && by_force ==> recorded
            &&& now == (if step is Settled && step->Settled_0 is Ok {
                case.runtimes.remove(case.run)
            } else {
                case.runtimes
            })
            &&& match step {
                PreparationCleanup::LookUp => !retired && !gone && !recorded && !done,
                PreparationCleanup::Retire => !retired && !gone && !recorded && !done,
                PreparationCleanup::Destroy { failure } => {
                    &&& failure == settling
                    &&& !retired && !gone && !recorded && !done
                },
                PreparationCleanup::RequestForceStop { failure } => {
                    &&& failure == settling
                    &&& by_force
                    &&& !retired && gone && !recorded && !done
                },
                PreparationCleanup::Append { failure } => {
                    &&& failure == settling
                    &&& !retired && gone && !done
                    &&& recorded == by_force
                },
                PreparationCleanup::Release => retired != done && (gone ==> done),
                PreparationCleanup::Settled(Ok(_)) => retired != done && (gone ==> done),
                PreparationCleanup::Settled(Err(error)) => {
                    &&& !retired && !done
                    &&& error is RuntimeCleanup ==> !gone && !recorded
                },
            }
        }),
    decreases moves.len(),
{
    if moves.len() > 0 {
        results_follow_the_end_of_the_capsule(case, moves.drop_last());
        found_before_or_last(moves, retires(case));
        found_before_or_last(moves, destroys(case));
        found_before_or_last(moves, records_the_stop(case));
        found_before_or_last(moves, appends(case));
    }
}

/// The lease on a run ends with a cleanup that succeeds and with nothing else:
/// until then, and after every cleanup that failed, the run is owned by the same
/// preparation, with its failure and under its claim, so that a cleanup can be
/// tried again.
pub proof fn leases_end_only_with_a_cleanup<K, G, E>(
    case: CleanupCase<K, G>,
    moves: Seq<CleanupMove<E>>,
)
    requires
        case.runtimes.contains_key(case.run),
        case.runtimes[case.run] == RuntimeSlot::<PreparationTask<K>, G>::Preparing(case.task),
    ensures
        ({
            let (now, step) = preparation_cleanup_run(case, moves);
            &&& now.remove(case.run) == case.runtimes.remove(case.run)
            &&& now.contains_key(case.run) == !(step is Settled && step->Settled_0 is Ok)
            &&& now.contains_key(case.run) ==> {
                &&& now[case.run] is Preparing
                &&& now[case.run]->Preparing_0.failure == case.task.failure
                &&& now[case.run]->Preparing_0.controller_claim == case.task.controller_claim
                &&& now[case.run]->Preparing_0 == case.task
            }
        }),
{
    results_follow_the_end_of_the_capsule(case, moves);
    let now = preparation_cleanup_run(case, moves).0;
    assert(now.remove(case.run) =~= case.runtimes.remove(case.run));
}

/// A capsule that can neither be destroyed nor be confirmed absent fails the
/// cleanup with that error, and nothing else does.
pub proof fn cleanups_fail_with_what_went_wrong<K, G, E>(
    case: CleanupCase<K, G>,
    moves: Seq<CleanupMove<E>>,
    by: CleanupMove<E>,
)
    requires
        !(preparation_cleanup_run(case, moves).1 is Settled),
    ensures
        ({
            let before = preparation_cleanup_run(case, moves).1;
            let after = preparation_cleanup_run(case, moves.push(by)).1;
            let failed = after is Settled && after->Settled_0 is Err;
            &&& failed && after->Settled_0->Err_0 is RuntimeCleanup <==> before is Destroy && by
                == CleanupMove::Reply(CleanupEvent::<E>::Destroyed(false))
            &&& failed && after->Settled_0->Err_0 is Ledger ==> {
                let error = after->Settled_0->Err_0->Ledger_0;
                ||| by == CleanupMove::Reply(CleanupEvent::<E>::LookedUp(Err(error)))
                ||| by == CleanupMove::Reply(CleanupEvent::<E>::ForceStopRequested(Err(error)))
                ||| by == CleanupMove::Reply(CleanupEvent::<E>::Appended(Err(error)))
            }
        }),
{
    assert(moves.push(by).drop_last() =~= moves);
}

/// A result is appended at most once.
pub proof fn results_are_appended_once<K, G, E>(
    case: CleanupCase<K, G>,
    moves: Seq<CleanupMove<E>>,
    i: int,
    j: int,
)
    requires
        found_at(moves, appends(case), i),
        found_at(moves, appends(case), j),
    ensures
        i == j,
{
    if i < j {
        found_among_the_first(moves, appends(case), j, i);
        assert(found_at(moves.take(j), appends(case), i));
        results_follow_the_end_of_the_capsule(case, moves.take(j));
    } else if j < i {
        found_among_the_first(moves, appends(case), i, j);
        assert(found_at(moves.take(i), appends(case), j));
        results_follow_the_end_of_the_capsule(case, moves.take(i));
    }
}

/// A cleanup by force destroys the capsule as one that was stopped by force and
/// gives that as the reason, whatever the preparation had failed with.
pub proof fn force_settles_as_stopped<K>(task: PreparationTask<K>)
    ensures
        settling_failure(task, true).exit == RunRuntimeExit::ForceStopped,
        settling_failure(task, true).reason@ == "force_stopped"@,
        stops_by_force(settling_failure(task, true), true),
{
}

/// A run that has its result already keeps it: nothing is destroyed or appended,
/// and all that is left for the cleanup is to retire the run.
pub proof fn finished_runs_keep_their_result<K, G, E>(
    case: CleanupCase<K, G>,
    moves: Seq<CleanupMove<E>>,
)
    requires
        moves.len() > 0,
        moves[0] == CleanupMove::Reply(CleanupEvent::<E>::LookedUp(Ok(Some(true)))),
    ensures
        !among(moves, destroys(case)),
        !among(moves, appends(case)),
        ({
            let step = preparation_cleanup_run(case, moves).1;
            step is Retire || step is Release || step is Settled && step->Settled_0 is Ok
        }),
    decreases moves.len(),
{
    let front = moves.drop_last();
    found_before_or_last(moves, destroys(case));
    found_before_or_last(moves, appends(case));
    if moves.len() == 1 {
        assert(front =~= Seq::empty());
        results_follow_the_end_of_the_capsule(case, front);
    } else {
        assert(front[0] == moves[0]);
        finished_runs_keep_their_result(case, front);
    }
}

/// What moves a stop by force: a reply of the host, with whether the preparation
/// is finished by then, or a look at the runtimes as they are.
pub enum ForceMove<T, G, E> {
    Reply(bool, ForceEvent<E>),
    LookUp(Map<Seq<char>, RuntimeSlot<T, G>>),
}

/// A stop by force after these moves, in order.
pub open spec fn force_run<T, G, E>(
    run: Seq<char>,
    moves: Seq<ForceMove<T, G, E>>,
) -> ForcePreparing<E>
    decreases moves.len(),
{
    if moves.len() == 0 {
        ForcePreparing::Await
    } else {
        let step = force_run(run, moves.drop_last());
        match moves.last() {
            ForceMove::Reply(finished, event) => force_next(step, finished, event),
            ForceMove::LookUp(runtimes) => look_up_next(runtimes, run, step),
        }
    }
}

/// The reply comes from a preparation that is over.
pub open spec fn is_over<T, G, E>() -> spec_fn(
    Seq<ForceMove<T, G, E>>,
    ForceMove<T, G, E>,
) -> bool {
    |before: Seq<ForceMove<T, G, E>>, by: ForceMove<T, G, E>|
        by == ForceMove::<T, G, E>::Reply(true, ForceEvent::Finished)
}

/// The look finds a runtime of the run: a graph, or a preparation.
pub open spec fn finds<T, G, E>(run: Seq<char>, graph: bool) -> spec_fn(
    Seq<ForceMove<T, G, E>>,
    ForceMove<T, G, E>,
) -> bool {
    |before: Seq<ForceMove<T, G, E>>, by: ForceMove<T, G, E>|
        {
            &&& by is LookUp
            &&& by->LookUp_0.contains_key(run)
            &&& by->LookUp_0[run] is Running == graph
        }
}

/// A stop by force does nothing to a run before its preparation is over.  Then
/// it stops a graph only where there is one, and cleans up only where the
/// preparation still owns the run, and then by force.
pub proof fn force_waits_for_the_preparation<T, G, E>(
    run: Seq<char>,
    moves: Seq<ForceMove<T, G, E>>,
)
    ensures
        !(force_run(run, moves) is Await) ==> among(moves, is_over()),
        force_run(run, moves) is ForceRunning ==> among(moves, finds(run, true)),
        force_run(run, moves) is Cleanup ==> among(moves, finds(run, false)) && force_run(
            run,
            moves,
        )->force,
    decreases moves.len(),
{
    if moves.len() > 0 {
        force_waits_for_the_preparation(run, moves.drop_last());
        found_before_or_last(moves, is_over());
        found_before_or_last(moves, finds(run, true));
        found_before_or_last(moves, finds(run, false));
    }
}

} // verus!
