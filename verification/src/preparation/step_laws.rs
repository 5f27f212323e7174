//! What the steps of a preparation are for: nothing that a reply brings is lost
//! or changed, and every reply has the consequence that it should.
use crate::failure::{CapsuleAllocationUnavailable, PreparationFailure, RunRuntimeExit};
use crate::history::{among, found_before_or_last};
use crate::preparation::capsule::{
    asks, capsule_next, capsule_run, optional_text, owned_text, started_with, AllocatedRunStart,
    AllocationRequest, CapsuleEvent, PreparationStart, PrepareCapsule,
};
use crate::preparation::cleanup::{
    force_next, look_up_next, preparation_cleanup_next, release_next, stops_by_force, CleanupError,
    CleanupEvent, ForceEvent, ForcePreparing, PreparationCleanup,
};
use crate::preparation::owner::{
    owner_next, register_next, start_next, OwnerEvent, PreparationOwner, StartEvent,
    StartPreparation,
};
use crate::preparation::prepare::{
    allocation_of, hand_off_next, prepare_run_next, prepare_run_run, prepare_run_start, Allocation,
    PrepareRun, PrepareRunEvent, PrepareRunMove,
};
use crate::preparation::progress::{
    progress_next, progress_start, ProgressEvent, ProgressLog, SafeLogEvent, SafeLogStream,
};
use crate::preparation::runtimes::RuntimeSlot;
use crate::preparation::task::{accepted, cancelling, settling_failure, PreparationTask};
use crate::run_id::RunId;
use vstd::prelude::*;

verus! {

/// A preparation that is allocating gives up once its time is up, however far the
/// allocation is: it never goes on waiting, and the runtime counts as lost.
pub proof fn time_bounds_the_allocation<C>(allocation: Allocation<C>)
    ensures
        prepare_run_next(
            PrepareRun::Allocate,
            false,
            PrepareRunEvent::Woken { timed_out: true, allocation },
        ) == PrepareRun::<C>::Settled(
            Err(
                PreparationFailure {
                    reason: "environment_preparation_timeout",
                    exit: RunRuntimeExit::RuntimeLost,
                },
            ),
        ),
{
}

/// The move finds a preparation still allocating when its time is up.
pub open spec fn runs_out<C>(cancelled: bool) -> spec_fn(
    Seq<(bool, PrepareRunMove<C>)>,
    (bool, PrepareRunMove<C>),
) -> bool {
    |before: Seq<(bool, PrepareRunMove<C>)>, by: (bool, PrepareRunMove<C>)|
        {
            &&& prepare_run_run(cancelled, before) is Allocate
            &&& !by.0
            &&& by.1 is Reply && by.1->Reply_0 is Woken && by.1->Reply_0->timed_out
        }
}

/// A preparation that has run out of time stays given up, whatever comes behind.
pub proof fn preparations_out_of_time_are_given_up<C>(
    cancelled: bool,
    moves: Seq<(bool, PrepareRunMove<C>)>,
)
    requires
        among(moves, runs_out(cancelled)),
    ensures
        prepare_run_run(cancelled, moves) == PrepareRun::<C>::Settled(
            Err(
                PreparationFailure {
                    reason: "environment_preparation_timeout",
                    exit: RunRuntimeExit::RuntimeLost,
                },
            ),
        ),
    decreases moves.len(),
{
    if moves.len() > 0 {
        found_before_or_last(moves, runs_out(cancelled));
        if among(moves.drop_last(), runs_out(cancelled)) {
            preparations_out_of_time_are_given_up(cancelled, moves.drop_last());
        }
    }
}

/// A cancellation stops a preparation by force wherever it is found before the
/// run is handed over: before it begins, while it allocates, be its time up or
/// its capsule there, and at the handoff.
pub proof fn cancellation_comes_first<C>(
    timed_out: bool,
    allocation: Allocation<C>,
    capsule: C,
)
    ensures
        ({
            let stopped = PrepareRun::<C>::Settled(
                Err(
                    PreparationFailure {
                        reason: "force_stopped",
                        exit: RunRuntimeExit::ForceStopped,
                    },
                ),
            );
            &&& prepare_run_start::<C>(true) == stopped
            &&& prepare_run_next(
                PrepareRun::Allocate,
                true,
                PrepareRunEvent::Woken { timed_out, allocation },
            ) == stopped
            &&& hand_off_next(PrepareRun::HandOff { capsule }, true) == stopped
        }),
{
}

/// In time and not cancelled, a preparation follows its allocation: it waits for
/// one that is pending, hands over the very capsule that is ready, and fails with
/// the very failure of one that failed.  Then the start of the run decides.
pub proof fn preparations_follow_their_allocation<C>(capsule: C, failure: PreparationFailure)
    ensures
        ({
            let woken = |allocation: Allocation<C>|
                prepare_run_next(
                    PrepareRun::Allocate,
                    false,
                    PrepareRunEvent::Woken { timed_out: false, allocation },
                );
            let unavailable = PrepareRun::<C>::Settled(
                Err(
                    PreparationFailure {
                        reason: "runtime_unavailable",
                        exit: RunRuntimeExit::RuntimeLost,
                    },
                ),
            );
            let starting = PrepareRun::<C>::Starting;
            &&& prepare_run_start::<C>(false) == PrepareRun::<C>::Allocate
            &&& woken(Allocation::Pending) == PrepareRun::<C>::Allocate
            &&& woken(Allocation::Ready(capsule)) == (PrepareRun::HandOff { capsule })
            &&& woken(Allocation::Failed(failure)) == PrepareRun::<C>::Settled(Err(failure))
            &&& woken(Allocation::Panicked) == unavailable
            &&& hand_off_next(PrepareRun::HandOff { capsule }, false) == starting
            &&& forall|cancelled: bool| #[trigger]
                prepare_run_next(starting, cancelled, PrepareRunEvent::HandedOff(true))
                    == PrepareRun::<C>::Settled(Ok(()))
            &&& forall|cancelled: bool| #[trigger]
                prepare_run_next(starting, cancelled, PrepareRunEvent::HandedOff(false))
                    == unavailable
        }),
        allocation_of(Ok::<C, PreparationFailure>(capsule)) == Allocation::Ready(capsule),
        allocation_of(Err::<C, PreparationFailure>(failure)) == Allocation::<C>::Failed(failure),
{
}

/// What a preparation is not waiting for changes nothing, and neither does
/// anything once it has settled.
pub proof fn preparations_heed_only_what_they_wait_for<C>(
    step: PrepareRun<C>,
    cancelled: bool,
    event: PrepareRunEvent<C>,
)
    ensures
        step is Allocate && event is HandedOff ==> prepare_run_next(step, cancelled, event) == step,
        step is HandOff ==> prepare_run_next(step, cancelled, event) == step,
        step is Starting && event is Woken ==> prepare_run_next(step, cancelled, event) == step,
        step is Settled ==> prepare_run_next(step, cancelled, event) == step,
        !(step is HandOff) ==> hand_off_next(step, cancelled) == step,
{
}

/// A run is started with the stored run, its variables, the claim of its
/// preparation and the capsule, each as it is.
pub proof fn runs_are_started_with_all_of_it<A, R, S, K, C>(
    start: PreparationStart<A, R, S>,
    task: PreparationTask<K>,
    capsule: C,
    run: AllocatedRunStart<A, R, K, C>,
)
    requires
        started_with(start, task, capsule, run),
    ensures
        *run.stored == start.stored,
        *run.environment == start.environment,
        *run.controller_claim == task.controller_claim,
        run.capsule == capsule,
{
}

/// The reply fetches this token.
pub open spec fn fetches<C>(retained: bool, token: Option<String>) -> spec_fn(
    Seq<CapsuleEvent<C>>,
    CapsuleEvent<C>,
) -> bool {
    |before: Seq<CapsuleEvent<C>>, event: CapsuleEvent<C>|
        {
            &&& capsule_run(retained, before) is FetchToken
            &&& event == CapsuleEvent::<C>::TokenFetched(token)
        }
}

/// Fresh or retained, a capsule is asked for with the very token that was fetched
/// for the run, be it one or none.
pub proof fn capsules_are_asked_for_with_the_fetched_token<C>(
    retained: bool,
    events: Seq<CapsuleEvent<C>>,
)
    ensures
        match capsule_run(retained, events) {
            PrepareCapsule::Allocate { retained: kind, github_token } => {
                &&& kind == retained
                &&& among(events, fetches(retained, github_token))
            },
            PrepareCapsule::Announce { retained: kind } => kind == retained,
            PrepareCapsule::FetchToken { retained: kind } => kind == retained,
            PrepareCapsule::Settled(_) => true,
        },
    decreases events.len(),
{
    if events.len() > 0 {
        capsules_are_asked_for_with_the_fetched_token(retained, events.drop_last());
        if let PrepareCapsule::Allocate { github_token, .. } = capsule_run(retained, events) {
            found_before_or_last(events, fetches(retained, github_token));
        }
    }
}

/// A capsule is announced, its token fetched, and the capsule granted: each reply
/// that went well takes it on with what it brought.
pub proof fn capsules_go_on_with_what_they_get<C>(
    retained: bool,
    token: Option<String>,
    capsule: C,
)
    ensures
        capsule_next(PrepareCapsule::<C>::Announce { retained }, CapsuleEvent::Logged)
            == (PrepareCapsule::<C>::FetchToken { retained }),
        capsule_next(
            PrepareCapsule::<C>::FetchToken { retained },
            CapsuleEvent::TokenFetched(token),
        ) == (PrepareCapsule::<C>::Allocate { retained, github_token: token }),
        capsule_next(
            PrepareCapsule::<C>::Allocate { retained, github_token: token },
            CapsuleEvent::Allocated(capsule),
        ) == PrepareCapsule::Settled(Ok(capsule)),
{
}

/// Whatever is refused on the way to a capsule loses the runtime, under the code
/// of the refusal where it has one.
pub proof fn refusals_keep_their_code<C>(
    retained: bool,
    token: Option<String>,
    code: &'static str,
)
    ensures
        ({
            let lost = |reason: &'static str|
                PrepareCapsule::<C>::Settled(
                    Err(PreparationFailure { reason, exit: RunRuntimeExit::RuntimeLost }),
                );
            let allocate = PrepareCapsule::<C>::Allocate { retained, github_token: token };
            &&& capsule_next(
                PrepareCapsule::<C>::Announce { retained },
                CapsuleEvent::LogRefused(code),
            ) == lost(code)
            &&& capsule_next(
                PrepareCapsule::<C>::FetchToken { retained },
                CapsuleEvent::TokenRefused,
            ) == lost("runtime_unavailable")
            &&& capsule_next(allocate, CapsuleEvent::AllocationRefused(code)) == lost(code)
            &&& retained ==> capsule_next(allocate, CapsuleEvent::CleanupUnconfirmed) == lost(
                "runtime_unavailable",
            )
        }),
{
}

/// A reply that a capsule is not waiting for changes nothing, and neither does
/// any once it has settled.
pub proof fn capsules_heed_only_what_they_wait_for<C>(
    step: PrepareCapsule<C>,
    event: CapsuleEvent<C>,
)
    ensures
        step is Announce && !(event is Logged || event is LogRefused) ==> capsule_next(step, event)
            == step,
        step is FetchToken && !(event is TokenFetched || event is TokenRefused) ==> capsule_next(
            step,
            event,
        ) == step,
        step is Allocate && !(event is Allocated || event is AllocationRefused
            || event is CleanupUnconfirmed) ==> capsule_next(step, event) == step,
        step is Settled ==> capsule_next(step, event) == step,
{
}

/// The allocator is asked for what an earlier run has left exactly if the run
/// resumes one, and then for that run and that checkpoint.  It is always told the
/// run, what was admitted, its variables, and the token or that there is none.
pub proof fn the_allocator_is_told_everything<A, R, S>(
    start: PreparationStart<A, R, S>,
    token: Option<String>,
    request: AllocationRequest<A, S>,
)
    requires
        asks(start, token, request),
    ensures
        request is Fresh <==> start.resume is None,
        match request {
            AllocationRequest::Fresh { run_id, admitted, github_token, environment } => {
                &&& *run_id == start.stored.run_id
                &&& *admitted == start.stored.admitted
                &&& github_token is Some == token is Some
                &&& token is Some ==> github_token->0@ == token->0@
                &&& *environment == start.environment
            },
            AllocationRequest::Retained {
                run_id,
                admitted,
                github_token,
                environment,
                selection,
                source_run_id,
            } => {
                &&& *run_id == start.stored.run_id
                &&& *admitted == start.stored.admitted
                &&& github_token is Some == token is Some
                &&& token is Some ==> github_token->0@ == token->0@
                &&& *environment == start.environment
                &&& *selection == start.resume->0.selection
                &&& *source_run_id == start.resume->0.source_run_id
            },
        },
{
    assert(owned_text(token) is Some == token is Some);
    match request {
        AllocationRequest::Fresh { github_token, .. } => {
            assert(optional_text(github_token) is Some == github_token is Some);
        },
        AllocationRequest::Retained { github_token, .. } => {
            assert(optional_text(github_token) is Some == github_token is Some);
        },
    }
}

/// A line is checked, and then appended for the run itself with its own time and
/// with the text that the check gave; what the check or the ledger refuses is a
/// lost runtime.
pub proof fn progress_is_logged_as_checked(
    run_id: &RunId,
    timestamp: String,
    raw: &str,
    line: String,
    event: SafeLogEvent,
)
    ensures
        progress_start(run_id, timestamp, raw) == (ProgressLog::Check {
            run_id,
            timestamp,
            line: raw,
        }),
        progress_next(
            ProgressLog::Check { run_id, timestamp, line: raw },
            ProgressEvent::Checked(Some(line)),
        ) == (ProgressLog::Append {
            run_id,
            event: SafeLogEvent {
                execution: None,
                timestamp,
                stream: SafeLogStream::System,
                line,
            },
        }),
        progress_next(
            ProgressLog::Check { run_id, timestamp, line: raw },
            ProgressEvent::Checked(None),
        ) == ProgressLog::Settled(Err(CapsuleAllocationUnavailable::Runtime)),
        progress_next(ProgressLog::Append { run_id, event }, ProgressEvent::Appended(true))
            == ProgressLog::Settled(Ok(())),
        progress_next(ProgressLog::Append { run_id, event }, ProgressEvent::Appended(false))
            == ProgressLog::Settled(Err(CapsuleAllocationUnavailable::Runtime)),
{
}

/// A reply that a line is not waiting for changes nothing, and neither does any
/// once it has settled.
pub proof fn progress_heeds_only_what_it_waits_for(step: ProgressLog, event: ProgressEvent)
    ensures
        step is Check && event is Appended ==> progress_next(step, event) == step,
        step is Append && event is Checked ==> progress_next(step, event) == step,
        step is Settled ==> progress_next(step, event) == step,
{
}

/// A preparation is accepted once its run is observed and it is registered, with
/// a state in which nothing has happened yet and under its claim.  A run that
/// cannot be observed is refused with that error.
pub proof fn preparations_are_accepted_in_order<K, T, G, E>(
    runtimes: Map<Seq<char>, RuntimeSlot<T, G>>,
    run: Seq<char>,
    task: T,
    claim: K,
    error: E,
    step: StartPreparation<E>,
    event: StartEvent<E>,
)
    ensures
        start_next(StartPreparation::<E>::Observe, StartEvent::Observed(Ok(())))
            == StartPreparation::<E>::Register,
        start_next(StartPreparation::<E>::Observe, StartEvent::Observed(Err(error)))
            == StartPreparation::Settled(Err(error)),
        register_next(runtimes, run, task, StartPreparation::<E>::Register) == (
            runtimes.insert(run, RuntimeSlot::<T, G>::Preparing(task)),
            StartPreparation::<E>::Launch,
        ),
        start_next(StartPreparation::<E>::Launch, StartEvent::Launched)
            == StartPreparation::<E>::Settled(Ok(())),
        !(step is Register) ==> register_next(runtimes, run, task, step) == (runtimes, step),
        step is Observe && event is Launched ==> start_next(step, event) == step,
        step is Register || step is Settled ==> start_next(step, event) == step,
        step is Launch && event is Observed ==> start_next(step, event) == step,
        accepted(claim).controller_claim == claim,
        !accepted(claim).cancelled && !accepted(claim).finished,
        accepted(claim).failure is None,
{
}

/// A preparation that went well is over.  One that failed keeps that very failure
/// and is cleaned up, not by force; a panic counts as an unavailable runtime.
/// Over it is with the cleanup, or, where that failed, once it is reported.
/// Nothing else of its state changes.
pub proof fn preparations_are_carried_to_their_end<K>(
    task: PreparationTask<K>,
    failure: PreparationFailure,
    force: bool,
    step: PreparationOwner,
    event: OwnerEvent,
)
    ensures
        ({
            let over = (
                PreparationOwner::Finished,
                PreparationTask { finished: true, ..task },
            );
            let prepare = PreparationOwner::Prepare;
            let cleanup = PreparationOwner::Cleanup { force };
            &&& owner_next(prepare, task, OwnerEvent::Prepared(Ok(()))) == over
            &&& owner_next(prepare, task, OwnerEvent::Prepared(Err(failure))) == (
                PreparationOwner::Cleanup { force: false },
                PreparationTask { failure: Some(failure), ..task },
            )
            &&& owner_next(prepare, task, OwnerEvent::PreparePanicked) == (
                PreparationOwner::Cleanup { force: false },
                PreparationTask {
                    failure: Some(
                        PreparationFailure {
                            reason: "runtime_unavailable",
                            exit: RunRuntimeExit::RuntimeLost,
                        },
                    ),
                    ..task
                },
            )
            &&& owner_next(cleanup, task, OwnerEvent::Cleaned(true)) == over
            &&& owner_next(cleanup, task, OwnerEvent::Cleaned(false)) == (
                PreparationOwner::ReportFailed,
                task,
            )
            &&& owner_next(PreparationOwner::ReportFailed, task, OwnerEvent::Reported) == over
        }),
        step is Prepare && (event is Cleaned || event is Reported) ==> owner_next(step, task, event)
            == (step, task),
        step is Cleanup && !(event is Cleaned) ==> owner_next(step, task, event) == (step, task),
        step is ReportFailed && !(event is Reported) ==> owner_next(step, task, event) == (
            step,
            task,
        ),
        step is Finished ==> owner_next(step, task, event) == (step, task),
{
}

/// A cleanup by force settles a run as stopped by force; any other with the very
/// failure of its preparation, and without one as a run whose runtime was lost.
pub proof fn cleanups_settle_with_the_failure<K>(
    task: PreparationTask<K>,
    failure: PreparationFailure,
)
    ensures
        settling_failure(task, true) == (PreparationFailure {
            reason: "force_stopped",
            exit: RunRuntimeExit::ForceStopped,
        }),
        task.failure == Some(failure) ==> settling_failure(task, false) == failure,
        task.failure is None ==> settling_failure(task, false) == (PreparationFailure {
            reason: "runtime_lost",
            exit: RunRuntimeExit::RuntimeLost,
        }),
{
}

/// A cleanup looks the run up, and retires it if it has a result.  Else it
/// destroys the capsule and appends the result, both with one failure; where it
/// cleans up by force or the failure is a stop by force, that is recorded in
/// between.  At the end, and only there, the slot is freed.
pub proof fn cleanups_go_on_with_one_failure<K, T, G, E>(
    task: PreparationTask<K>,
    force: bool,
    failure: PreparationFailure,
    runtimes: Map<Seq<char>, RuntimeSlot<T, G>>,
    run: Seq<char>,
    step: PreparationCleanup<E>,
)
    ensures
        ({
            let next = |step: PreparationCleanup<E>, event: CleanupEvent<E>|
                preparation_cleanup_next(step, task, force, event);
            let look_up = PreparationCleanup::<E>::LookUp;
            let destroy = PreparationCleanup::<E>::Destroy { failure };
            let request = PreparationCleanup::<E>::RequestForceStop { failure };
            let append = PreparationCleanup::<E>::Append { failure };
            let release = PreparationCleanup::<E>::Release;
            let found = PreparationCleanup::<E>::Destroy {
                failure: settling_failure(task, force),
            };
            let by_force = force || failure.reason@ == "force_stopped"@;
            &&& next(look_up, CleanupEvent::LookedUp(Ok(Some(true))))
                == PreparationCleanup::<E>::Retire
            &&& next(look_up, CleanupEvent::LookedUp(Ok(Some(false)))) == found
            &&& next(look_up, CleanupEvent::LookedUp(Ok(None))) == found
            &&& next(PreparationCleanup::Retire, CleanupEvent::Retired) == release
            &&& by_force ==> next(destroy, CleanupEvent::Destroyed(true)) == request
            &&& !by_force ==> next(destroy, CleanupEvent::Destroyed(true)) == append
            &&& next(request, CleanupEvent::ForceStopRequested(Ok(()))) == append
            &&& next(append, CleanupEvent::Appended(Ok(()))) == release
            &&& release_next(runtimes, run, release) == (
                runtimes.remove(run),
                PreparationCleanup::<E>::Settled(Ok(())),
            )
        }),
        !(step is Release) ==> release_next(runtimes, run, step) == (runtimes, step),
        stops_by_force(failure, force) == (force || failure.reason@ == "force_stopped"@),
{
}

/// What the ledger refuses ends a cleanup with that very error, and a capsule
/// that is not known to be gone ends it as one that cannot be cleaned up.
pub proof fn cleanups_end_with_what_went_wrong<K, E>(
    task: PreparationTask<K>,
    force: bool,
    failure: PreparationFailure,
    error: E,
)
    ensures
        ({
            let next = |step: PreparationCleanup<E>, event: CleanupEvent<E>|
                preparation_cleanup_next(step, task, force, event);
            let refused = PreparationCleanup::Settled(Err(CleanupError::Ledger(error)));
            &&& next(PreparationCleanup::LookUp, CleanupEvent::LookedUp(Err(error))) == refused
            &&& next(
                PreparationCleanup::RequestForceStop { failure },
                CleanupEvent::ForceStopRequested(Err(error)),
            ) == refused
            &&& next(
                PreparationCleanup::Append { failure },
                CleanupEvent::Appended(Err(error)),
            ) == refused
            &&& next(
                PreparationCleanup::Destroy { failure },
                CleanupEvent::Destroyed(false),
            ) == PreparationCleanup::<E>::Settled(Err(CleanupError::RuntimeCleanup))
        }),
{
}

/// A reply that a cleanup is not waiting for changes nothing, and neither does
/// any once it has settled.
pub proof fn cleanups_heed_only_what_they_wait_for<K, E>(
    task: PreparationTask<K>,
    force: bool,
    step: PreparationCleanup<E>,
    event: CleanupEvent<E>,
)
    ensures
        ({
            let after = preparation_cleanup_next(step, task, force, event);
            &&& step is LookUp && !(event is LookedUp) ==> after == step
            &&& step is Retire && !(event is Retired) ==> after == step
            &&& step is Destroy && !(event is Destroyed) ==> after == step
            &&& step is RequestForceStop && !(event is ForceStopRequested) ==> after == step
            &&& step is Append && !(event is Appended) ==> after == step
            &&& step is Release || step is Settled ==> after == step
        }),
{
}

/// To stop a preparation by force cancels it at once and leaves the rest of its
/// state as it is: whether it is over, what it failed with, and its claim.
pub proof fn force_cancels_and_nothing_else<K>(task: PreparationTask<K>)
    ensures
        cancelling(task).cancelled,
        cancelling(task).finished == task.finished,
        cancelling(task).failure == task.failure,
        cancelling(task).controller_claim == task.controller_claim,
{
}

/// A stop by force waits until the preparation is over and then follows what the
/// run has: a graph is stopped, a preparation cleaned up by force, and with
/// neither it is done.  It comes to what that came to.
pub proof fn force_follows_the_runtime<T, G, E>(
    runtimes: Map<Seq<char>, RuntimeSlot<T, G>>,
    run: Seq<char>,
    finished: bool,
    force: bool,
    reply: Result<(), E>,
    step: ForcePreparing<E>,
    event: ForceEvent<E>,
)
    ensures
        force_next(ForcePreparing::<E>::Await, true, ForceEvent::Finished) == ForcePreparing::<
            E,
        >::LookUp,
        force_next(ForcePreparing::<E>::Await, false, event) == ForcePreparing::<E>::Await,
        ({
            let after = look_up_next(runtimes, run, ForcePreparing::<E>::LookUp);
            &&& !runtimes.contains_key(run) ==> after == ForcePreparing::<E>::Settled(Ok(()))
            &&& runtimes.contains_key(run) && runtimes[run] is Running ==> after
                == ForcePreparing::<E>::ForceRunning
            &&& runtimes.contains_key(run) && runtimes[run] is Preparing ==> after
                == (ForcePreparing::<E>::Cleanup { force: true })
        }),
        force_next(ForcePreparing::ForceRunning, finished, ForceEvent::RunningForced(reply))
            == ForcePreparing::Settled(reply),
        force_next(ForcePreparing::Cleanup { force }, finished, ForceEvent::Cleaned(reply))
            == ForcePreparing::Settled(reply),
        step is Await && !(event is Finished) ==> force_next(step, finished, event) == step,
        step is ForceRunning && !(event is RunningForced) ==> force_next(step, finished, event)
            == step,
        step is Cleanup && !(event is Cleaned) ==> force_next(step, finished, event) == step,
        step is LookUp || step is Settled ==> force_next(step, finished, event) == step,
        !(step is LookUp) ==> look_up_next(runtimes, run, step) == step,
{
}

} // verus!
