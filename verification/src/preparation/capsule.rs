//! The capsule of a run: announced, allocated, or taken over from an earlier
//! run.
use crate::failure::{PreparationFailure, RunRuntimeExit};
use crate::history::{among, found_before_or_last};
use crate::preparation::task::PreparationTask;
use crate::run_id::RunId;
use std::collections::BTreeMap;
use vstd::prelude::*;
use vstd::string::*;

verus! {

/// An earlier run that a run resumes, and the checkpoint that it starts from.
#[derive(Debug)]
pub struct ResumePreparation<S> {
    pub source_run_id: RunId,
    pub selection: S,
}

/// A run as the ledger holds it.
#[derive(Debug)]
pub struct StoredRun<A, R> {
    pub run_id: RunId,
    /// The run as it was admitted.
    pub admitted: A,
    /// Whatever else the ledger holds of the run.
    pub rest: R,
}

/// What a preparation starts from.
#[derive(Debug)]
pub struct PreparationStart<A, R, S> {
    pub stored: StoredRun<A, R>,
    /// The variables of the run, by their names.
    pub environment: BTreeMap<String, String>,
    pub resume: Option<ResumePreparation<S>>,
}

/// What the allocator is asked for.
pub enum AllocationRequest<'a, A, S> {
    /// A new capsule.
    Fresh {
        run_id: &'a RunId,
        admitted: &'a A,
        github_token: Option<&'a str>,
        environment: &'a BTreeMap<String, String>,
    },
    /// A capsule on what an earlier run has left.
    Retained {
        run_id: &'a RunId,
        admitted: &'a A,
        github_token: Option<&'a str>,
        environment: &'a BTreeMap<String, String>,
        selection: &'a S,
        source_run_id: &'a RunId,
    },
}

/// What a run is started with in its capsule.
pub struct AllocatedRunStart<'a, A, R, K, C> {
    pub stored: &'a StoredRun<A, R>,
    pub environment: &'a BTreeMap<String, String>,
    /// The claim under which the controller owns the run.
    pub controller_claim: &'a K,
    pub capsule: C,
}

/// A text that may be missing.
pub open spec fn optional_text(text: Option<&str>) -> Option<Seq<char>> {
    match text {
        Some(text) => Some(text@),
        None => None,
    }
}

/// A text of one's own that may be missing.
pub open spec fn owned_text(text: Option<String>) -> Option<Seq<char>> {
    match text {
        Some(text) => Some(text@),
        None => None,
    }
}

/// This request asks for the capsule of a run, with this token.
pub open spec fn asks<A, R, S>(
    start: PreparationStart<A, R, S>,
    token: Option<String>,
    request: AllocationRequest<A, S>,
) -> bool {
    match request {
        AllocationRequest::Fresh { run_id, admitted, github_token, environment } => {
            &&& start.resume is None
            &&& *run_id == start.stored.run_id
            &&& *admitted == start.stored.admitted
            &&& optional_text(github_token) == owned_text(token)
            &&& *environment == start.environment
        },
        AllocationRequest::Retained {
            run_id,
            admitted,
            github_token,
            environment,
            selection,
            source_run_id,
        } => {
            &&& start.resume is Some
            &&& *run_id == start.stored.run_id
            &&& *admitted == start.stored.admitted
            &&& optional_text(github_token) == owned_text(token)
            &&& *environment == start.environment
            &&& *selection == start.resume->0.selection
            &&& *source_run_id == start.resume->0.source_run_id
        },
    }
}

/// This is what a run is started with in a capsule.
pub open spec fn started_with<A, R, S, K, C>(
    start: PreparationStart<A, R, S>,
    task: PreparationTask<K>,
    capsule: C,
    run: AllocatedRunStart<A, R, K, C>,
) -> bool {
    &&& *run.stored == start.stored
    &&& *run.environment == start.environment
    &&& *run.controller_claim == task.controller_claim
    &&& run.capsule == capsule
}

impl<A, R, S> PreparationStart<A, R, S> {
    /// What the allocator is asked for: a run that resumes another asks for
    /// what that one has left, any other run for a new capsule.
    pub fn allocation_request<'a>(&'a self, token: &'a Option<String>) -> (request:
        AllocationRequest<'a, A, S>)
        ensures
            asks(*self, *token, request),
    {
        let github_token = match token {
            Some(token) => Some(token.as_str()),
            None => None,
        };
        match &self.resume {
            Some(resume) => AllocationRequest::Retained {
                run_id: &self.stored.run_id,
                admitted: &self.stored.admitted,
                github_token,
                environment: &self.environment,
                selection: &resume.selection,
                source_run_id: &resume.source_run_id,
            },
            None => AllocationRequest::Fresh {
                run_id: &self.stored.run_id,
                admitted: &self.stored.admitted,
                github_token,
                environment: &self.environment,
            },
        }
    }

    /// What the run is started with: the run as it is stored, its variables, the
    /// claim of its preparation, and the capsule that was allocated for it.
    pub fn allocated_start<'a, K, C>(&'a self, task: &'a PreparationTask<K>, capsule: C) -> (start:
        AllocatedRunStart<'a, A, R, K, C>)
        ensures
            started_with(*self, *task, capsule, start),
    {
        AllocatedRunStart {
            stored: &self.stored,
            environment: &self.environment,
            controller_claim: &task.controller_claim,
            capsule,
        }
    }
}

/// A capsule being prepared: what the host does next for it.
#[derive(Debug, PartialEq, Eq)]
pub enum PrepareCapsule<C> {
    /// Log that the execution environment is being prepared.
    Announce { retained: bool },
    /// Fetch the token that the source of the run needs, if it needs one.
    FetchToken { retained: bool },
    /// Ask the allocator for a capsule.
    Allocate { retained: bool, github_token: Option<String> },
    /// The capsule as the allocator granted it, or why there is none.
    Settled(Result<C, PreparationFailure>),
}

/// A reply of the host to a capsule that is being prepared.  A refusal comes
/// with the code under which it is recorded.
#[derive(Debug, PartialEq, Eq)]
pub enum CapsuleEvent<C> {
    Logged,
    LogRefused(&'static str),
    TokenFetched(Option<String>),
    TokenRefused,
    Allocated(C),
    AllocationRefused(&'static str),
    /// A retained allocation came to nothing and may have left something.
    CleanupUnconfirmed,
}

pub open spec fn capsule_next<C>(
    step: PrepareCapsule<C>,
    event: CapsuleEvent<C>,
) -> PrepareCapsule<C> {
    match (step, event) {
        (PrepareCapsule::Announce { retained }, CapsuleEvent::Logged) => {
            PrepareCapsule::FetchToken { retained }
        },
        (PrepareCapsule::Announce { .. }, CapsuleEvent::LogRefused(code)) => {
            PrepareCapsule::Settled(Err(PreparationFailure::lost(code)))
        },
        (PrepareCapsule::FetchToken { retained }, CapsuleEvent::TokenFetched(github_token)) => {
            PrepareCapsule::Allocate { retained, github_token }
        },
        (PrepareCapsule::FetchToken { .. }, CapsuleEvent::TokenRefused) => {
            PrepareCapsule::Settled(Err(PreparationFailure::lost("runtime_unavailable")))
        },
        (PrepareCapsule::Allocate { .. }, CapsuleEvent::Allocated(capsule)) => {
            PrepareCapsule::Settled(Ok(capsule))
        },
        (PrepareCapsule::Allocate { .. }, CapsuleEvent::AllocationRefused(code)) => {
            PrepareCapsule::Settled(Err(PreparationFailure::lost(code)))
        },
        (PrepareCapsule::Allocate { retained, .. }, CapsuleEvent::CleanupUnconfirmed) => {
            if retained {
                PrepareCapsule::Settled(Err(PreparationFailure::lost("runtime_unavailable")))
            } else {
                step
            }
        },
        _ => step,
    }
}

/// What the log says as a capsule is being prepared.
pub fn capsule_announcement() -> (line: &'static str)
    ensures
        line@ == "Preparing execution environment"@,
{
    "Preparing execution environment"
}

impl<C> PrepareCapsule<C> {
    /// Starts to prepare the capsule of a run.
    pub fn prepare_capsule<A, R, S>(start: &PreparationStart<A, R, S>) -> (step: Self)
        ensures
            step == (PrepareCapsule::<C>::Announce { retained: start.resume is Some }),
    {
        PrepareCapsule::Announce { retained: start.resume.is_some() }
    }

    /// Takes the reply to the current step.
    pub fn next(self, event: CapsuleEvent<C>) -> (step: Self)
        ensures
            step == capsule_next(self, event),
    {
        match (self, event) {
            (PrepareCapsule::Announce { retained }, CapsuleEvent::Logged) => {
                PrepareCapsule::FetchToken { retained }
            },
            (PrepareCapsule::Announce { .. }, CapsuleEvent::LogRefused(code)) => {
                PrepareCapsule::Settled(Err(PreparationFailure::unavailable(code)))
            },
            (
                PrepareCapsule::FetchToken { retained },
                CapsuleEvent::TokenFetched(github_token),
            ) => PrepareCapsule::Allocate { retained, github_token },
            (PrepareCapsule::FetchToken { .. }, CapsuleEvent::TokenRefused) => {
                PrepareCapsule::Settled(
                    Err(PreparationFailure::unavailable("runtime_unavailable")),
                )
            },
            (PrepareCapsule::Allocate { .. }, CapsuleEvent::Allocated(capsule)) => {
                PrepareCapsule::Settled(Ok(capsule))
            },
            (PrepareCapsule::Allocate { .. }, CapsuleEvent::AllocationRefused(code)) => {
                PrepareCapsule::Settled(Err(PreparationFailure::unavailable(code)))
            },
            (
                PrepareCapsule::Allocate { retained, github_token },
                CapsuleEvent::CleanupUnconfirmed,
            ) => if retained {
                PrepareCapsule::Settled(
                    Err(PreparationFailure::unavailable("runtime_unavailable")),
                )
            } else {
                PrepareCapsule::Allocate { retained, github_token }
            },
            (step, _) => step,
        }
    }
}

/// A capsule being prepared after these replies, in order.
pub open spec fn capsule_run<C>(
    retained: bool,
    events: Seq<CapsuleEvent<C>>,
) -> PrepareCapsule<C>
    decreases events.len(),
{
    if events.len() == 0 {
        PrepareCapsule::Announce { retained }
    } else {
        capsule_next(capsule_run(retained, events.drop_last()), events.last())
    }
}

/// The reply says that the announcement was logged.
pub open spec fn announces<C>(retained: bool) -> spec_fn(
    Seq<CapsuleEvent<C>>,
    CapsuleEvent<C>,
) -> bool {
    |before: Seq<CapsuleEvent<C>>, event: CapsuleEvent<C>|
        capsule_run(retained, before) is Announce && event is Logged
}

/// Among these replies the announcement was logged.
pub open spec fn announced<C>(retained: bool, events: Seq<CapsuleEvent<C>>) -> bool {
    among(events, announces(retained))
}

/// The reply grants this capsule.
pub open spec fn grants<C>(retained: bool, capsule: C) -> spec_fn(
    Seq<CapsuleEvent<C>>,
    CapsuleEvent<C>,
) -> bool {
    |before: Seq<CapsuleEvent<C>>, event: CapsuleEvent<C>|
        capsule_run(retained, before) is Allocate && event == CapsuleEvent::Allocated(capsule)
}

/// Among these replies the allocator granted this capsule.
pub open spec fn granted<C>(retained: bool, events: Seq<CapsuleEvent<C>>, capsule: C) -> bool {
    among(events, grants(retained, capsule))
}

/// A capsule is asked for only once the preparation was announced, and the one
/// that comes of it is the one that the allocator granted.  Whatever else goes
/// wrong, the run counts as one whose runtime was lost, never as one stopped by
/// force.
pub proof fn capsules_are_announced_and_granted<C>(
    retained: bool,
    events: Seq<CapsuleEvent<C>>,
)
    ensures
        match capsule_run(retained, events) {
            PrepareCapsule::Announce { retained: kind } => kind == retained,
            PrepareCapsule::FetchToken { retained: kind } => kind == retained && announced(
                retained,
                events,
            ),
            PrepareCapsule::Allocate { retained: kind, .. } => kind == retained && announced(
                retained,
                events,
            ),
            PrepareCapsule::Settled(Ok(capsule)) => announced(retained, events) && granted(
                retained,
                events,
                capsule,
            ),
            PrepareCapsule::Settled(Err(failure)) => failure.exit == RunRuntimeExit::RuntimeLost,
        },
    decreases events.len(),
{
    if events.len() > 0 {
        capsules_are_announced_and_granted(retained, events.drop_last());
        found_before_or_last(events, announces(retained));
        if let PrepareCapsule::Settled(Ok(capsule)) = capsule_run(retained, events) {
            found_before_or_last(events, grants(retained, capsule));
        }
    }
}

} // verus!
