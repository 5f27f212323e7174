//! Who owns a preparation: the one who accepts it, and the task that carries it
//! to its end.
use crate::failure::PreparationFailure;
use crate::preparation::runtimes::RuntimeSlot;
use crate::preparation::task::{accepted, settling_failure, PreparationTask};
use crate::run_id::RunId;
use crate::run_map::RunMap;
use vstd::prelude::*;

verus! {

/// A preparation being accepted: what the host does next for it.
#[derive(Debug, PartialEq, Eq)]
pub enum StartPreparation<E> {
    /// Begin to observe the runtime of the run.
    Observe,
    /// Register the preparation as the runtime of the run, as
    /// `StartPreparation::register` does.
    Register,
    /// Leave the preparation to a task of its own.
    Launch,
    Settled(Result<(), E>),
}

/// A reply of the host to a preparation that is being accepted.
#[derive(Debug, PartialEq, Eq)]
pub enum StartEvent<E> {
    Observed(Result<(), E>),
    Launched,
}

pub open spec fn start_next<E>(
    step: StartPreparation<E>,
    event: StartEvent<E>,
) -> StartPreparation<E> {
    match (step, event) {
        (StartPreparation::Observe, StartEvent::Observed(reply)) => match reply {
            Ok(_) => StartPreparation::Register,
            Err(error) => StartPreparation::Settled(Err(error)),
        },
        (StartPreparation::Launch, StartEvent::Launched) => StartPreparation::Settled(Ok(())),
        _ => step,
    }
}

/// The runtimes and the step once the preparation is registered.
pub open spec fn register_next<T, G, E>(
    runtimes: Map<Seq<char>, RuntimeSlot<T, G>>,
    run: Seq<char>,
    task: T,
    step: StartPreparation<E>,
) -> (Map<Seq<char>, RuntimeSlot<T, G>>, StartPreparation<E>) {
    match step {
        StartPreparation::Register => (
            runtimes.insert(run, RuntimeSlot::Preparing(task)),
            StartPreparation::Launch,
        ),
        _ => (runtimes, step),
    }
}

impl<E> StartPreparation<E> {
    /// Starts to accept a preparation under a claim, with the state that it will
    /// share.
    pub fn start_preparation<K>(controller_claim: K) -> (start: (Self, PreparationTask<K>))
        ensures
            start.0 == StartPreparation::<E>::Observe,
            start.1 == accepted(controller_claim),
    {
        (StartPreparation::Observe, PreparationTask::new(controller_claim))
    }

    /// Takes the reply to the current step.
    pub fn next(self, event: StartEvent<E>) -> (step: Self)
        ensures
            step == start_next(self, event),
    {
        match (self, event) {
            (StartPreparation::Observe, StartEvent::Observed(reply)) => match reply {
                Ok(()) => StartPreparation::Register,
                Err(error) => StartPreparation::Settled(Err(error)),
            },
            (StartPreparation::Launch, StartEvent::Launched) => StartPreparation::Settled(Ok(())),
            (step, _) => step,
        }
    }

    /// Registers the preparation as the runtime of its run, if that is due.
    pub fn register<T, G>(
        self,
        runtimes: &mut RunMap<RuntimeSlot<T, G>>,
        run_id: RunId,
        task: T,
    ) -> (step: Self)
        requires
            old(runtimes).well_formed(),
        ensures
            final(runtimes).well_formed(),
            (final(runtimes)@, step) == register_next(old(runtimes)@, run_id@, task, self),
    {
        match self {
            StartPreparation::Register => {
                runtimes.insert(run_id, RuntimeSlot::Preparing(task));
                StartPreparation::Launch
            },
            step => step,
        }
    }
}

/// What moves a preparation that is being accepted: a reply of the host, or its
/// registration.
pub enum StartMove<E> {
    Reply(StartEvent<E>),
    Register,
}

/// The runtimes and a preparation that is being accepted after these moves, in
/// order.
pub open spec fn start_run<T, G, E>(
    runtimes: Map<Seq<char>, RuntimeSlot<T, G>>,
    run: Seq<char>,
    task: T,
    moves: Seq<StartMove<E>>,
) -> (Map<Seq<char>, RuntimeSlot<T, G>>, StartPreparation<E>)
    decreases moves.len(),
{
    if moves.len() == 0 {
        (runtimes, StartPreparation::Observe)
    } else {
        let (now, step) = start_run(runtimes, run, task, moves.drop_last());
        match moves.last() {
            StartMove::Reply(event) => (now, start_next(step, event)),
            StartMove::Register => register_next(now, run, task, step),
        }
    }
}

/// A preparation is left to its task, and accepted, only once it is registered
/// as the runtime of its run, neither cancelled nor finished nor failed, and
/// under the claim that it was accepted with.  One that is refused is never
/// registered.
pub proof fn preparations_run_only_registered<K, G, E>(
    runtimes: Map<Seq<char>, RuntimeSlot<PreparationTask<K>, G>>,
    run: Seq<char>,
    controller_claim: K,
    moves: Seq<StartMove<E>>,
)
    ensures
        ({
            let task = accepted(controller_claim);
            let (now, step) = start_run(runtimes, run, task, moves);
            let registered = runtimes.insert(run, RuntimeSlot::Preparing(task));
            match step {
                StartPreparation::Observe => now == runtimes,
                StartPreparation::Register => now == runtimes,
                StartPreparation::Launch => now == registered,
                StartPreparation::Settled(Ok(_)) => now == registered,
                StartPreparation::Settled(Err(_)) => now == runtimes,
            }
        }),
    decreases moves.len(),
{
    if moves.len() > 0 {
        preparations_run_only_registered(runtimes, run, controller_claim, moves.drop_last());
    }
}

/// The task of a preparation: what the host does next for it.
#[derive(Clone, Copy, Debug, PartialEq, Eq, Structural)]
pub enum PreparationOwner {
    /// Prepare the run.
    Prepare,
    /// Clean up after a preparation that came to nothing, by force or not.
    Cleanup { force: bool },
    /// Let those who observe the run know that its runtime failed.
    ReportFailed,
    /// Nothing: the preparation is over.
    Finished,
}

/// A reply of the host to the task of a preparation.
#[derive(Clone, Copy, Debug, PartialEq, Eq)]
pub enum OwnerEvent {
    Prepared(Result<(), PreparationFailure>),
    PreparePanicked,
    /// Whether the cleanup succeeded; one that panicked did not.
    Cleaned(bool),
    Reported,
}

/// The task of a preparation after a reply, and the state that it shares.
pub open spec fn owner_next<K>(
    step: PreparationOwner,
    task: PreparationTask<K>,
    event: OwnerEvent,
) -> (PreparationOwner, PreparationTask<K>) {
    let over = (PreparationOwner::Finished, PreparationTask { finished: true, ..task });
    match (step, event) {
        (PreparationOwner::Prepare, OwnerEvent::Prepared(reply)) => match reply {
            Ok(_) => over,
            Err(failure) => (
                PreparationOwner::Cleanup { force: false },
                PreparationTask { failure: Some(failure), ..task },
            ),
        },
        (PreparationOwner::Prepare, OwnerEvent::PreparePanicked) => (
            PreparationOwner::Cleanup { force: false },
            PreparationTask {
                failure: Some(PreparationFailure::lost("runtime_unavailable")),
                ..task
            },
        ),
        (PreparationOwner::Cleanup { .. }, OwnerEvent::Cleaned(done)) => if done {
            over
        } else {
            (PreparationOwner::ReportFailed, task)
        },
        (PreparationOwner::ReportFailed, OwnerEvent::Reported) => over,
        _ => (step, task),
    }
}

impl PreparationOwner {
    /// The first step of the task of a preparation.
    pub fn own_preparation() -> (step: Self)
        ensures
            step == PreparationOwner::Prepare,
    {
        PreparationOwner::Prepare
    }

    /// Takes the reply to the current step.  A failure is recorded before its
    /// cleanup begins, and the preparation is finished only behind the cleanup.
    pub fn next<K>(self, task: &mut PreparationTask<K>, event: OwnerEvent) -> (step: Self)
        ensures
            (step, *final(task)) == owner_next(self, *old(task), event),
    {
        match (self, event) {
            (PreparationOwner::Prepare, OwnerEvent::Prepared(reply)) => match reply {
                Ok(()) => {
                    task.finished = true;
                    PreparationOwner::Finished
                },
                Err(failure) => {
                    task.failure = Some(failure);
                    PreparationOwner::Cleanup { force: false }
                },
            },
            (PreparationOwner::Prepare, OwnerEvent::PreparePanicked) => {
                task.failure = Some(PreparationFailure::unavailable("runtime_unavailable"));
                PreparationOwner::Cleanup { force: false }
            },
            (PreparationOwner::Cleanup { .. }, OwnerEvent::Cleaned(done)) => if done {
                task.finished = true;
                PreparationOwner::Finished
            } else {
                PreparationOwner::ReportFailed
            },
            (PreparationOwner::ReportFailed, OwnerEvent::Reported) => {
                task.finished = true;
                PreparationOwner::Finished
            },
            (step, _) => step,
        }
    }
}

/// What holds of every preparation and the state that it shares: it is finished
/// exactly when its task is over, and while it is cleaned up its failure is
/// known.
pub open spec fn owner_invariant<K>(step: PreparationOwner, task: PreparationTask<K>) -> bool {
    &&& task.finished == (step == PreparationOwner::Finished)
    &&& step == PreparationOwner::Prepare ==> task.failure is None
    &&& step is Cleanup || step is ReportFailed ==> task.failure is Some
}

/// No reply breaks what holds of a preparation, and neither does a
/// cancellation that comes in between.  The claim on the run stays with it
/// throughout.
pub proof fn preparations_finish_only_when_over<K>(
    step: PreparationOwner,
    task: PreparationTask<K>,
    event: OwnerEvent,
    cancelled: bool,
)
    requires
        owner_invariant(step, task),
    ensures
        ({
            let (next, after) = owner_next(step, task, event);
            &&& owner_invariant(
                next,
                PreparationTask { cancelled: cancelled || after.cancelled, ..after },
            )
            &&& after.controller_claim == task.controller_claim
        }),
        owner_invariant(PreparationOwner::Prepare, accepted(task.controller_claim)),
{
}

/// A preparation that failed is finished only once its cleanup has settled: no
/// reply takes it straight from preparing to finished, and the failure that the
/// cleanup is to record is the one that it ended with.
pub proof fn failures_are_cleaned_up_before_the_finish<K>(
    task: PreparationTask<K>,
    failure: PreparationFailure,
)
    requires
        owner_invariant(PreparationOwner::Prepare, task),
    ensures
        ({
            let (step, after) = owner_next(
                PreparationOwner::Prepare,
                task,
                OwnerEvent::Prepared(Err(failure)),
            );
            &&& step == (PreparationOwner::Cleanup { force: false })
            &&& !after.finished
            &&& settling_failure(after, false) == failure
        }),
{
}

} // verus!
