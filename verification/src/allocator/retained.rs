//! A retained allocation: the workspace of a run goes over to its successor.
use crate::allocator::recovery::ProductionCapsuleAllocator;
use crate::allocator::turns::{
    first_locked, retained_order, second_locked, the_earlier_run_is_locked_first, TurnOrder,
};
use crate::failure::CapsuleAllocationUnavailable;
use crate::history::{among, found_before_or_last};
use crate::run_id::{run_before, RunId};
use vstd::prelude::*;

verus! {

/// Which run of a handoff is meant.
#[derive(Clone, Copy, Debug, PartialEq, Eq, Structural)]
pub enum HandoffRun {
    Source,
    Successor,
}

/// Why a handoff did not begin.
#[derive(Debug, PartialEq, Eq)]
pub enum HandoffRefusal<E> {
    /// The two runs cannot be locked together.
    Turns(CapsuleAllocationUnavailable),
    /// The source could not be claimed.
    Claim(E),
    /// The workspace could not be moved, and this came of undoing the claim.
    Move(E),
}

/// A handoff that is beginning: what the host does next for it.
#[derive(Debug, PartialEq, Eq)]
pub enum Handoff<C, E> {
    /// Lock the first turn, that of the given run.
    LockFirst(HandoffRun),
    /// Lock the second turn, that of the given run.
    LockSecond(HandoffRun),
    /// Claim the source for the successor.
    Claim,
    /// Move the workspace of the source to the successor.
    Move { claim: C },
    /// The workspace could not be moved: undo the claim, and keep both turns
    /// until that is done.
    Undo { claim: C },
    /// Nothing came of it: release every turn.
    Refused(HandoffRefusal<E>),
    /// The successor owns the workspace: release the turn of the source and
    /// keep that of the successor.
    Begun { claim: C },
}

/// A reply of the host to a handoff.
#[derive(Debug, PartialEq, Eq)]
pub enum HandoffEvent<C, E> {
    Locked,
    Claimed(Result<C, E>),
    Moved(bool),
    /// What the handoff is refused with once its claim is undone.
    Undone(E),
}

pub open spec fn other_run(run: HandoffRun) -> HandoffRun {
    match run {
        HandoffRun::Source => HandoffRun::Successor,
        HandoffRun::Successor => HandoffRun::Source,
    }
}

pub open spec fn handoff_start<C, E>(source: Seq<char>, successor: Seq<char>) -> Handoff<C, E> {
    match retained_order(source, successor) {
        Ok(TurnOrder::SourceFirst) => Handoff::LockFirst(HandoffRun::Source),
        Ok(TurnOrder::SuccessorFirst) => Handoff::LockFirst(HandoffRun::Successor),
        Err(error) => Handoff::Refused(HandoffRefusal::Turns(error)),
    }
}

pub open spec fn handoff_next<C, E>(
    step: Handoff<C, E>,
    event: HandoffEvent<C, E>,
) -> Handoff<C, E> {
    match (step, event) {
        (Handoff::LockFirst(run), HandoffEvent::Locked) => Handoff::LockSecond(other_run(run)),
        (Handoff::LockSecond(_), HandoffEvent::Locked) => Handoff::Claim,
        (Handoff::Claim, HandoffEvent::Claimed(reply)) => match reply {
            Ok(claim) => Handoff::Move { claim },
            Err(error) => Handoff::Refused(HandoffRefusal::Claim(error)),
        },
        (Handoff::Move { claim }, HandoffEvent::Moved(moved)) => if moved {
            Handoff::Begun { claim }
        } else {
            Handoff::Undo { claim }
        },
        (Handoff::Undo { .. }, HandoffEvent::Undone(error)) => Handoff::Refused(
            HandoffRefusal::Move(error),
        ),
        _ => step,
    }
}

/// Whether the turn of a run is locked while a handoff is at this step.  A
/// handoff that was refused keeps none, and one that has begun keeps that of
/// the successor alone.
pub open spec fn handoff_keeps<C, E>(step: Handoff<C, E>, run: HandoffRun) -> bool {
    match step {
        Handoff::LockFirst(_) => false,
        Handoff::LockSecond(next) => run != next,
        Handoff::Claim => true,
        Handoff::Move { .. } => true,
        Handoff::Undo { .. } => true,
        Handoff::Refused(_) => false,
        Handoff::Begun { .. } => run == HandoffRun::Successor,
    }
}

impl<F> ProductionCapsuleAllocator<F> {
    /// Starts a handoff from one run to another.
    pub fn begin_retained_allocation<C, E>(&self, source: &RunId, successor: &RunId) -> (step:
        Handoff<C, E>)
        ensures
            step == handoff_start::<C, E>(source@, successor@),
    {
        match self.allocation_turns.lock_retained(source, successor) {
            Ok(TurnOrder::SourceFirst) => Handoff::LockFirst(HandoffRun::Source),
            Ok(TurnOrder::SuccessorFirst) => Handoff::LockFirst(HandoffRun::Successor),
            Err(error) => Handoff::Refused(HandoffRefusal::Turns(error)),
        }
    }
}

impl<C, E> Handoff<C, E> {
    /// Whether the host keeps the turn of a run locked at this step; a turn
    /// that is not kept is released.
    pub fn keeps(&self, run: HandoffRun) -> (kept: bool)
        ensures
            kept == handoff_keeps(*self, run),
    {
        match self {
            Handoff::LockFirst(_) => false,
            Handoff::LockSecond(next) => run != *next,
            Handoff::Claim => true,
            Handoff::Move { .. } => true,
            Handoff::Undo { .. } => true,
            Handoff::Refused(_) => false,
            Handoff::Begun { .. } => match run {
                HandoffRun::Source => false,
                HandoffRun::Successor => true,
            },
        }
    }

    /// Takes the reply to the current step.
    pub fn next(self, event: HandoffEvent<C, E>) -> (step: Self)
        ensures
            step == handoff_next(self, event),
    {
        match (self, event) {
            (Handoff::LockFirst(run), HandoffEvent::Locked) => Handoff::LockSecond(
                match run {
                    HandoffRun::Source => HandoffRun::Successor,
                    HandoffRun::Successor => HandoffRun::Source,
                },
            ),
            (Handoff::LockSecond(_), HandoffEvent::Locked) => Handoff::Claim,
            (Handoff::Claim, HandoffEvent::Claimed(reply)) => match reply {
                Ok(claim) => Handoff::Move { claim },
                Err(error) => Handoff::Refused(HandoffRefusal::Claim(error)),
            },
            (Handoff::Move { claim }, HandoffEvent::Moved(moved)) => if moved {
                Handoff::Begun { claim }
            } else {
                Handoff::Undo { claim }
            },
            (Handoff::Undo { .. }, HandoffEvent::Undone(error)) => Handoff::Refused(
                HandoffRefusal::Move(error),
            ),
            (step, _) => step,
        }
    }
}

/// A handoff after these replies, in order.
pub open spec fn handoff_run<C, E>(
    source: Seq<char>,
    successor: Seq<char>,
    events: Seq<HandoffEvent<C, E>>,
) -> Handoff<C, E>
    decreases events.len(),
{
    if events.len() == 0 {
        handoff_start(source, successor)
    } else {
        handoff_next(handoff_run(source, successor, events.drop_last()), events.last())
    }
}

/// The name of a run of a handoff.
pub open spec fn named(source: Seq<char>, successor: Seq<char>, run: HandoffRun) -> Seq<char> {
    match run {
        HandoffRun::Source => source,
        HandoffRun::Successor => successor,
    }
}

/// The reply locks the turn of a run.
pub open spec fn locks<C, E>(
    source: Seq<char>,
    successor: Seq<char>,
    run: HandoffRun,
) -> spec_fn(Seq<HandoffEvent<C, E>>, HandoffEvent<C, E>) -> bool {
    |before: Seq<HandoffEvent<C, E>>, event: HandoffEvent<C, E>|
        {
            let step = handoff_run(source, successor, before);
            &&& step == Handoff::<C, E>::LockFirst(run) || step == Handoff::<C, E>::LockSecond(run)
            &&& event is Locked
        }
}

/// Among these replies the turn of a run was locked.
pub open spec fn locked<C, E>(
    source: Seq<char>,
    successor: Seq<char>,
    events: Seq<HandoffEvent<C, E>>,
    run: HandoffRun,
) -> bool {
    among(events, locks(source, successor, run))
}

/// Among these replies both turns were locked.
pub open spec fn locked_both<C, E>(
    source: Seq<char>,
    successor: Seq<char>,
    events: Seq<HandoffEvent<C, E>>,
) -> bool {
    locked(source, successor, events, HandoffRun::Source) && locked(
        source,
        successor,
        events,
        HandoffRun::Successor,
    )
}

/// The reply grants this claim.
pub open spec fn claims<C, E>(
    source: Seq<char>,
    successor: Seq<char>,
    claim: C,
) -> spec_fn(Seq<HandoffEvent<C, E>>, HandoffEvent<C, E>) -> bool {
    |before: Seq<HandoffEvent<C, E>>, event: HandoffEvent<C, E>|
        {
            &&& handoff_run(source, successor, before) is Claim
            &&& event == HandoffEvent::<C, E>::Claimed(Ok(claim))
        }
}

/// The reply confirms that the workspace has moved.
pub open spec fn moves<C, E>(source: Seq<char>, successor: Seq<char>) -> spec_fn(
    Seq<HandoffEvent<C, E>>,
    HandoffEvent<C, E>,
) -> bool {
    |before: Seq<HandoffEvent<C, E>>, event: HandoffEvent<C, E>|
        {
            &&& handoff_run(source, successor, before) is Move
            &&& event == HandoffEvent::<C, E>::Moved(true)
        }
}

/// The reply confirms that the claim is undone, with this error.
pub open spec fn undoes<C, E>(
    source: Seq<char>,
    successor: Seq<char>,
    error: E,
) -> spec_fn(Seq<HandoffEvent<C, E>>, HandoffEvent<C, E>) -> bool {
    |before: Seq<HandoffEvent<C, E>>, event: HandoffEvent<C, E>|
        {
            &&& handoff_run(source, successor, before) is Undo
            &&& event == HandoffEvent::<C, E>::Undone(error)
        }
}

/// A claim is sought only with both turns locked, in the order of the runs, and
/// the workspace moves only under a claim that was granted.  The successor owns
/// the workspace only once it has moved; where it could not be moved the claim
/// is undone before any turn is released.
pub proof fn workspaces_move_only_under_both_turns<C, E>(
    source: Seq<char>,
    successor: Seq<char>,
    events: Seq<HandoffEvent<C, E>>,
)
    ensures
        match handoff_run(source, successor, events) {
            Handoff::LockFirst(run) => {
                &&& source != successor
                &&& named(source, successor, run) == first_locked(source, successor)
            },
            Handoff::LockSecond(run) => {
                &&& source != successor
                &&& named(source, successor, run) == second_locked(source, successor)
                &&& locked(source, successor, events, other_run(run))
            },
            Handoff::Claim => locked_both(source, successor, events),
            Handoff::Move { claim } => {
                &&& locked_both(source, successor, events)
                &&& among(events, claims(source, successor, claim))
            },
            Handoff::Undo { claim } => {
                &&& locked_both(source, successor, events)
                &&& among(events, claims(source, successor, claim))
            },
            Handoff::Begun { claim } => {
                &&& locked_both(source, successor, events)
                &&& among(events, claims(source, successor, claim))
                &&& among(events, moves(source, successor))
            },
            Handoff::Refused(HandoffRefusal::Turns(error)) => {
                &&& source == successor
                &&& error == CapsuleAllocationUnavailable::Runtime
            },
            Handoff::Refused(HandoffRefusal::Claim(_)) => locked_both(source, successor, events),
            Handoff::Refused(HandoffRefusal::Move(error)) => {
                &&& locked_both(source, successor, events)
                &&& among(events, undoes(source, successor, error))
            },
        },
    decreases events.len(),
{
    if events.len() > 0 {
        workspaces_move_only_under_both_turns(source, successor, events.drop_last());
        found_before_or_last(events, locks(source, successor, HandoffRun::Source));
        found_before_or_last(events, locks(source, successor, HandoffRun::Successor));
        found_before_or_last(events, moves(source, successor));
        match handoff_run(source, successor, events) {
            Handoff::Move { claim } => {
                found_before_or_last(events, claims(source, successor, claim));
            },
            Handoff::Undo { claim } => {
                found_before_or_last(events, claims(source, successor, claim));
            },
            Handoff::Begun { claim } => {
                found_before_or_last(events, claims(source, successor, claim));
            },
            Handoff::Refused(HandoffRefusal::Move(error)) => {
                found_before_or_last(events, undoes(source, successor, error));
            },
            _ => {},
        }
    }
}

/// A turn is kept only once it was locked.  From then on it stays locked until
/// the handoff is refused, which frees both turns, or has begun, which frees
/// that of the source and keeps that of the successor.
pub proof fn turns_are_kept_until_the_handoff_is_over<C, E>(
    source: Seq<char>,
    successor: Seq<char>,
    events: Seq<HandoffEvent<C, E>>,
    run: HandoffRun,
)
    ensures
        ({
            let step = handoff_run(source, successor, events);
            &&& handoff_keeps(step, run) ==> locked(source, successor, events, run)
            &&& match step {
                Handoff::Refused(_) => !handoff_keeps(step, run),
                Handoff::Begun { .. } => handoff_keeps(step, run) == (run == HandoffRun::Successor),
                _ => handoff_keeps(step, run) == locked(source, successor, events, run),
            }
        }),
    decreases events.len(),
{
    workspaces_move_only_under_both_turns(source, successor, events);
    if events.len() > 0 {
        turns_are_kept_until_the_handoff_is_over(source, successor, events.drop_last(), run);
        found_before_or_last(events, locks(source, successor, run));
    }
}

/// A handoff between two runs locks the turn of the earlier run and then that of
/// the other, claims the source, moves the workspace under the very claim that
/// was granted, and begins with it once the workspace has moved.
pub proof fn handoffs_go_on_with_their_claim<C, E>(
    source: Seq<char>,
    successor: Seq<char>,
    claim: C,
)
    ensures
        source != successor && run_before(source, successor) ==> handoff_start::<C, E>(
            source,
            successor,
        ) == Handoff::<C, E>::LockFirst(HandoffRun::Source),
        source != successor && run_before(successor, source) ==> handoff_start::<C, E>(
            source,
            successor,
        ) == Handoff::<C, E>::LockFirst(HandoffRun::Successor),
        handoff_next(
            Handoff::<C, E>::LockFirst(HandoffRun::Source),
            HandoffEvent::Locked,
        ) == Handoff::<C, E>::LockSecond(HandoffRun::Successor),
        handoff_next(
            Handoff::<C, E>::LockFirst(HandoffRun::Successor),
            HandoffEvent::Locked,
        ) == Handoff::<C, E>::LockSecond(HandoffRun::Source),
        forall|run: HandoffRun| #[trigger]
            handoff_next(Handoff::<C, E>::LockSecond(run), HandoffEvent::Locked) == Handoff::<
                C,
                E,
            >::Claim,
        handoff_next(Handoff::<C, E>::Claim, HandoffEvent::Claimed(Ok(claim))) == (Handoff::<
            C,
            E,
        >::Move { claim }),
        handoff_next(Handoff::<C, E>::Move { claim }, HandoffEvent::Moved(true)) == (Handoff::<
            C,
            E,
        >::Begun { claim }),
{
    the_earlier_run_is_locked_first(source, successor);
}

/// A handoff is refused with what went wrong: a run that would hand over to
/// itself as a lost runtime, a claim with the error that refused it, and a
/// workspace that did not move with what came of undoing that very claim.
pub proof fn handoffs_are_refused_with_what_went_wrong<C, E>(run: Seq<char>, claim: C, error: E)
    ensures
        handoff_start::<C, E>(run, run) == Handoff::<C, E>::Refused(
            HandoffRefusal::Turns(CapsuleAllocationUnavailable::Runtime),
        ),
        handoff_next(Handoff::<C, E>::Claim, HandoffEvent::Claimed(Err(error))) == Handoff::<
            C,
            E,
        >::Refused(HandoffRefusal::Claim(error)),
        handoff_next(Handoff::<C, E>::Move { claim }, HandoffEvent::Moved(false)) == (Handoff::<
            C,
            E,
        >::Undo { claim }),
        handoff_next(Handoff::<C, E>::Undo { claim }, HandoffEvent::Undone(error)) == Handoff::<
            C,
            E,
        >::Refused(HandoffRefusal::Move(error)),
{
}

/// A reply that a handoff is not waiting for changes nothing, and neither does
/// any once it has begun or is refused.
pub proof fn handoffs_heed_only_what_they_wait_for<C, E>(
    step: Handoff<C, E>,
    event: HandoffEvent<C, E>,
)
    ensures
        (step is LockFirst || step is LockSecond) && !(event is Locked) ==> handoff_next(step, event)
            == step,
        step is Claim && !(event is Claimed) ==> handoff_next(step, event) == step,
        step is Move && !(event is Moved) ==> handoff_next(step, event) == step,
        step is Undo && !(event is Undone) ==> handoff_next(step, event) == step,
        step is Begun || step is Refused ==> handoff_next(step, event) == step,
{
}

} // verus!
