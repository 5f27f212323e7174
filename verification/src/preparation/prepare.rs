//! The preparation of a run: allocation, which anyone may stop, and the
//! handoff, which nobody may.
use crate::failure::PreparationFailure;
use crate::history::{among, found_at, found_among_the_first, found_before_or_last};
use crate::preparation::capsule::{started_with, AllocatedRunStart, PreparationStart};
use crate::preparation::task::PreparationTask;
use vstd::prelude::*;

verus! {

/// The seconds after which a preparation is given up.
pub const PREPARATION_TIMEOUT_SECONDS: u64 = 30 * 60;

/// How far the allocation of a capsule is.
#[derive(Debug, PartialEq, Eq)]
pub enum Allocation<C> {
    Pending,
    Ready(C),
    Failed(PreparationFailure),
    Panicked,
}

/// How far an allocation is that has come to its end.
pub open spec fn allocation_of<C>(result: Result<C, PreparationFailure>) -> Allocation<C> {
    match result {
        Ok(capsule) => Allocation::Ready(capsule),
        Err(failure) => Allocation::Failed(failure),
    }
}

impl<C> Allocation<C> {
    /// An allocation that has come to its end with a capsule or without.
    pub fn of(result: Result<C, PreparationFailure>) -> (allocation: Self)
        ensures
            allocation == allocation_of(result),
    {
        match result {
            Ok(capsule) => Allocation::Ready(capsule),
            Err(failure) => Allocation::Failed(failure),
        }
    }
}

/// A preparation: what the host does next for it.
#[derive(Debug, PartialEq, Eq)]
pub enum PrepareRun<C> {
    /// Allocate a capsule, until it is there, the preparation is cancelled or
    /// its time is up.
    Allocate,
    /// Hand the run over to its capsule, as `PrepareRun::hand_off` says.
    HandOff { capsule: C },
    /// Wait until the run has started.
    Starting,
    Settled(Result<(), PreparationFailure>),
}

/// A reply of the host to a preparation.
#[derive(Debug, PartialEq, Eq)]
pub enum PrepareRunEvent<C> {
    /// Something has happened: whether the time is up, and how far the
    /// allocation is.
    Woken { timed_out: bool, allocation: Allocation<C> },
    /// Whether the run has started.
    HandedOff(bool),
}

/// The first step of a preparation: one that is cancelled already does nothing.
pub open spec fn prepare_run_start<C>(cancelled: bool) -> PrepareRun<C> {
    if cancelled {
        PrepareRun::Settled(Err(PreparationFailure::stopped()))
    } else {
        PrepareRun::Allocate
    }
}

/// A preparation after a reply.  While it allocates, a cancellation counts
/// before the timeout and the timeout before what the allocation came to.
pub open spec fn prepare_run_next<C>(
    step: PrepareRun<C>,
    cancelled: bool,
    event: PrepareRunEvent<C>,
) -> PrepareRun<C> {
    match (step, event) {
        (PrepareRun::Allocate, PrepareRunEvent::Woken { timed_out, allocation }) => if cancelled {
            PrepareRun::Settled(Err(PreparationFailure::stopped()))
        } else if timed_out {
            PrepareRun::Settled(Err(PreparationFailure::lost("environment_preparation_timeout")))
        } else {
            match allocation {
                Allocation::Pending => PrepareRun::Allocate,
                Allocation::Ready(capsule) => PrepareRun::HandOff { capsule },
                Allocation::Failed(failure) => PrepareRun::Settled(Err(failure)),
                Allocation::Panicked => PrepareRun::Settled(
                    Err(PreparationFailure::lost("runtime_unavailable")),
                ),
            }
        },
        (PrepareRun::Starting, PrepareRunEvent::HandedOff(started)) => if started {
            PrepareRun::Settled(Ok(()))
        } else {
            PrepareRun::Settled(Err(PreparationFailure::lost("runtime_unavailable")))
        },
        _ => step,
    }
}

/// A preparation once its run is handed over, unless it was cancelled before
/// that.
pub open spec fn hand_off_next<C>(step: PrepareRun<C>, cancelled: bool) -> PrepareRun<C> {
    match step {
        PrepareRun::HandOff { .. } => if cancelled {
            PrepareRun::Settled(Err(PreparationFailure::stopped()))
        } else {
            PrepareRun::Starting
        },
        _ => step,
    }
}

impl<C> PrepareRun<C> {
    pub fn prepare_run<K>(task: &PreparationTask<K>) -> (step: Self)
        ensures
            step == prepare_run_start::<C>(task.cancelled),
    {
        if task.cancelled {
            PrepareRun::Settled(Err(PreparationFailure::cancelled()))
        } else {
            PrepareRun::Allocate
        }
    }

    /// Takes the reply to the current step.
    pub fn next<K>(self, task: &PreparationTask<K>, event: PrepareRunEvent<C>) -> (step: Self)
        ensures
            step == prepare_run_next(self, task.cancelled, event),
    {
        match (self, event) {
            (PrepareRun::Allocate, PrepareRunEvent::Woken { timed_out, allocation }) => {
                if task.cancelled {
                    PrepareRun::Settled(Err(PreparationFailure::cancelled()))
                } else if timed_out {
                    PrepareRun::Settled(
                        Err(PreparationFailure::unavailable("environment_preparation_timeout")),
                    )
                } else {
                    match allocation {
                        Allocation::Pending => PrepareRun::Allocate,
                        Allocation::Ready(capsule) => PrepareRun::HandOff { capsule },
                        Allocation::Failed(failure) => PrepareRun::Settled(Err(failure)),
                        Allocation::Panicked => PrepareRun::Settled(
                            Err(PreparationFailure::unavailable("runtime_unavailable")),
                        ),
                    }
                }
            },
            (PrepareRun::Starting, PrepareRunEvent::HandedOff(started)) => if started {
                PrepareRun::Settled(Ok(()))
            } else {
                PrepareRun::Settled(Err(PreparationFailure::unavailable("runtime_unavailable")))
            },
            (step, _) => step,
        }
    }

    /// Hands the run over: gives what it is started with, unless the preparation
    /// has been cancelled or there is nothing to hand over.
    pub fn hand_off<'a, A, R, S, K>(
        self,
        start: &'a PreparationStart<A, R, S>,
        task: &'a PreparationTask<K>,
    ) -> (handoff: (Self, Option<AllocatedRunStart<'a, A, R, K, C>>))
        ensures
            handoff.0 == hand_off_next(self, task.cancelled),
            handoff.1 is Some == (self is HandOff && !task.cancelled),
            handoff.1 is Some ==> started_with(*start, *task, self->capsule, handoff.1->0),
    {
        match self {
            PrepareRun::HandOff { capsule } => if task.cancelled {
                (PrepareRun::Settled(Err(PreparationFailure::cancelled())), None)
            } else {
                (PrepareRun::Starting, Some(start.allocated_start(task, capsule)))
            },
            step => (step, None),
        }
    }
}

/// What moves a preparation: a reply of the host, or the handoff.
pub enum PrepareRunMove<C> {
    Reply(PrepareRunEvent<C>),
    HandOff,
}

/// A preparation after one move.
pub open spec fn prepare_run_moved<C>(
    step: PrepareRun<C>,
    cancelled: bool,
    by: PrepareRunMove<C>,
) -> PrepareRun<C> {
    match by {
        PrepareRunMove::Reply(event) => prepare_run_next(step, cancelled, event),
        PrepareRunMove::HandOff => hand_off_next(step, cancelled),
    }
}

/// A preparation after these moves, each with whether it was cancelled by then,
/// in order.
pub open spec fn prepare_run_run<C>(
    cancelled: bool,
    moves: Seq<(bool, PrepareRunMove<C>)>,
) -> PrepareRun<C>
    decreases moves.len(),
{
    if moves.len() == 0 {
        prepare_run_start(cancelled)
    } else {
        prepare_run_moved(
            prepare_run_run(cancelled, moves.drop_last()),
            moves.last().0,
            moves.last().1,
        )
    }
}

/// The move finds a cancelled preparation before its run was handed over.
pub open spec fn stops<C>(cancelled: bool) -> spec_fn(
    Seq<(bool, PrepareRunMove<C>)>,
    (bool, PrepareRunMove<C>),
) -> bool {
    |before: Seq<(bool, PrepareRunMove<C>)>, by: (bool, PrepareRunMove<C>)|
        {
            let step = prepare_run_run(cancelled, before);
            &&& by.0
            &&& {
                ||| step is Allocate && by.1 is Reply && by.1->Reply_0 is Woken
                ||| step is HandOff && by.1 is HandOff
            }
        }
}

/// The move brings this capsule in time, to a preparation that nobody has
/// cancelled.
pub open spec fn readies<C>(cancelled: bool, capsule: C) -> spec_fn(
    Seq<(bool, PrepareRunMove<C>)>,
    (bool, PrepareRunMove<C>),
) -> bool {
    |before: Seq<(bool, PrepareRunMove<C>)>, by: (bool, PrepareRunMove<C>)|
        {
            &&& prepare_run_run(cancelled, before) is Allocate
            &&& !by.0
            &&& by.1 == PrepareRunMove::Reply(
                PrepareRunEvent::Woken { timed_out: false, allocation: Allocation::Ready(capsule) },
            )
        }
}

/// The move hands the run over to this capsule.
pub open spec fn starts<C>(cancelled: bool, capsule: C) -> spec_fn(
    Seq<(bool, PrepareRunMove<C>)>,
    (bool, PrepareRunMove<C>),
) -> bool {
    |before: Seq<(bool, PrepareRunMove<C>)>, by: (bool, PrepareRunMove<C>)|
        {
            &&& prepare_run_run(cancelled, before) == (PrepareRun::HandOff { capsule })
            &&& !by.0
            &&& by.1 is HandOff
        }
}

/// A preparation that is cancelled before it begins is stopped by force at
/// once: it asks for no capsule and hands nothing over, whatever comes.
pub proof fn preparations_cancelled_before_do_nothing<C>(moves: Seq<(bool, PrepareRunMove<C>)>)
    ensures
        prepare_run_run(true, moves) == PrepareRun::<C>::Settled(
            Err(PreparationFailure::stopped()),
        ),
    decreases moves.len(),
{
    if moves.len() > 0 {
        preparations_cancelled_before_do_nothing(moves.drop_last());
    }
}

/// A preparation that is found cancelled before its run was handed over never
/// starts the run: it has been stopped by force, whatever the allocation came
/// to.
pub proof fn cancelled_preparations_never_start<C>(
    cancelled: bool,
    moves: Seq<(bool, PrepareRunMove<C>)>,
)
    requires
        among(moves, stops(cancelled)),
    ensures
        prepare_run_run(cancelled, moves) == PrepareRun::<C>::Settled(
            Err(PreparationFailure::stopped()),
        ),
    decreases moves.len(),
{
    if moves.len() > 0 {
        found_before_or_last(moves, stops(cancelled));
        if among(moves.drop_last(), stops(cancelled)) {
            cancelled_preparations_never_start(cancelled, moves.drop_last());
        }
    }
}

/// Once the run is handed over, a cancellation changes nothing: the start of the
/// run alone decides.
pub proof fn handoffs_are_not_interruptible<C>(
    cancelled: bool,
    other: bool,
    by: PrepareRunMove<C>,
)
    ensures
        prepare_run_moved(PrepareRun::<C>::Starting, cancelled, by) == prepare_run_moved(
            PrepareRun::<C>::Starting,
            other,
            by,
        ),
        prepare_run_moved(PrepareRun::<C>::Starting, cancelled, by) == PrepareRun::<C>::Settled(
            Ok(()),
        ) <==> by == PrepareRunMove::Reply(PrepareRunEvent::<C>::HandedOff(true)),
{
}

/// A run is handed over only to the capsule that was allocated for it, in time
/// and before anyone had cancelled its preparation.
pub proof fn runs_start_only_uncancelled<C>(
    cancelled: bool,
    moves: Seq<(bool, PrepareRunMove<C>)>,
)
    ensures
        match prepare_run_run(cancelled, moves) {
            PrepareRun::HandOff { capsule } => among(moves, readies(cancelled, capsule)),
            PrepareRun::Starting => exists|capsule: C| #[trigger]
                handed_over(cancelled, moves, capsule),
            PrepareRun::Settled(Ok(_)) => exists|capsule: C| #[trigger]
                handed_over(cancelled, moves, capsule),
            _ => true,
        },
    decreases moves.len(),
{
    if moves.len() > 0 {
        let front = moves.drop_last();
        runs_start_only_uncancelled(cancelled, front);
        match prepare_run_run(cancelled, front) {
            PrepareRun::Allocate => {
                if let PrepareRun::HandOff { capsule } = prepare_run_run(cancelled, moves) {
                    found_before_or_last(moves, readies(cancelled, capsule));
                }
            },
            PrepareRun::HandOff { capsule } => {
                found_before_or_last(moves, readies(cancelled, capsule));
                found_before_or_last(moves, starts(cancelled, capsule));
                if prepare_run_run(cancelled, moves) is Starting {
                    assert(handed_over(cancelled, moves, capsule));
                }
            },
            _ => {
                if exists|capsule: C| #[trigger] handed_over(cancelled, front, capsule) {
                    let capsule = choose|capsule: C| #[trigger]
                        handed_over(cancelled, front, capsule);
                    found_before_or_last(moves, readies(cancelled, capsule));
                    found_before_or_last(moves, starts(cancelled, capsule));
                    assert(handed_over(cancelled, moves, capsule));
                }
            },
        }
    }
}

/// Among these moves a capsule came in time and the run was handed over to it.
pub open spec fn handed_over<C>(
    cancelled: bool,
    moves: Seq<(bool, PrepareRunMove<C>)>,
    capsule: C,
) -> bool {
    among(moves, readies(cancelled, capsule)) && among(moves, starts(cancelled, capsule))
}

/// A run is handed over at most once.
pub proof fn runs_are_handed_over_once<C>(
    cancelled: bool,
    moves: Seq<(bool, PrepareRunMove<C>)>,
    capsule: C,
    other: C,
    i: int,
    j: int,
)
    requires
        found_at(moves, starts(cancelled, capsule), i),
        found_at(moves, starts(cancelled, other), j),
    ensures
        i == j,
        capsule == other,
{
    if i < j {
        found_among_the_first(moves, starts(cancelled, capsule), j, i);
        assert(among(moves.take(j), starts(cancelled, capsule)));
        handed_over_is_behind(cancelled, moves.take(j), capsule);
    } else if j < i {
        found_among_the_first(moves, starts(cancelled, other), i, j);
        assert(among(moves.take(i), starts(cancelled, other)));
        handed_over_is_behind(cancelled, moves.take(i), other);
    }
}

proof fn handed_over_is_behind<C>(
    cancelled: bool,
    moves: Seq<(bool, PrepareRunMove<C>)>,
    capsule: C,
)
    requires
        among(moves, starts(cancelled, capsule)),
    ensures
        prepare_run_run(cancelled, moves) is Starting || prepare_run_run(
            cancelled,
            moves,
        ) is Settled,
    decreases moves.len(),
{
    if moves.len() > 0 {
        found_before_or_last(moves, starts(cancelled, capsule));
        if among(moves.drop_last(), starts(cancelled, capsule)) {
            handed_over_is_behind(cancelled, moves.drop_last(), capsule);
        }
    }
}

} // verus!
