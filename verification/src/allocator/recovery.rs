//! What a run leaves behind for its recovery, and the allocator that reads it.
use crate::allocator::turns::AllocationTurns;
use crate::run_id::RunId;
use vstd::prelude::*;

verus! {

/// What is stored of a run for its recovery.
#[derive(Debug, PartialEq, Eq)]
pub struct HostedRecoveryDocument {
    pub recoverable: bool,
    pub run_id: Option<RunId>,
    pub delivery_run_id: Option<RunId>,
    pub resumed_from: Option<RunId>,
    pub successor_run_id: Option<RunId>,
}

/// The name of a run that may be missing.
pub open spec fn run_name(run_id: Option<RunId>) -> Option<Seq<char>> {
    match run_id {
        Some(run_id) => Some(run_id@),
        None => None,
    }
}

/// This document is that of a run that delivers for itself: whether it can be
/// recovered, what it resumes, and what succeeds it.
pub open spec fn delivers_for_itself(
    document: HostedRecoveryDocument,
    run: Seq<char>,
    state: (bool, Option<RunId>, Option<RunId>),
) -> bool {
    &&& document.recoverable == state.0
    &&& run_name(document.run_id) == Some(run)
    &&& run_name(document.delivery_run_id) == Some(run)
    &&& document.resumed_from == state.1
    &&& document.successor_run_id == state.2
}

/// The run that delivers, by a document that could or could not be read.
pub open spec fn delivering_run(document: Option<HostedRecoveryDocument>) -> Option<RunId> {
    match document {
        Some(document) => document.delivery_run_id,
        None => None,
    }
}

/// The allocator of capsules: where it stores runs, the source that it uses in
/// place of a checkout, what prepares a filesystem for it, and whose turn it is.
#[derive(Debug)]
pub struct ProductionCapsuleAllocator<F> {
    pub storage_root: Vec<u8>,
    pub source_override: Option<Vec<u8>>,
    pub prepare_filesystem: F,
    pub allocation_turns: AllocationTurns,
}

/// The allocator with another filesystem and, where one is given, another source.
pub open spec fn refitted<F>(
    allocator: ProductionCapsuleAllocator<F>,
    source: Option<Vec<u8>>,
    prepare: F,
) -> ProductionCapsuleAllocator<F> {
    ProductionCapsuleAllocator {
        source_override: match source {
            Some(source) => Some(source),
            None => allocator.source_override,
        },
        prepare_filesystem: prepare,
        ..allocator
    }
}

impl<F> ProductionCapsuleAllocator<F> {
    /// The allocator with another source and another filesystem.
    pub fn with_test_filesystem_and_source(self, source: Vec<u8>, prepare: F) -> (allocator: Self)
        ensures
            allocator == refitted(self, Some(source), prepare),
    {
        ProductionCapsuleAllocator {
            storage_root: self.storage_root,
            source_override: Some(source),
            prepare_filesystem: prepare,
            allocation_turns: self.allocation_turns,
        }
    }

    pub fn set_test_filesystem(&mut self, prepare: F)
        ensures
            *final(self) == refitted(*old(self), None, prepare),
    {
        self.prepare_filesystem = prepare;
    }

    /// The document to be stored for a run that delivers for itself.
    pub fn write_test_recovery(
        &self,
        run_id: &RunId,
        state: (bool, Option<RunId>, Option<RunId>),
    ) -> (document: HostedRecoveryDocument)
        ensures
            delivers_for_itself(document, run_id@, state),
    {
        let (recoverable, resumed_from, successor_run_id) = state;
        HostedRecoveryDocument {
            recoverable,
            run_id: Some(run_id.clone()),
            delivery_run_id: Some(run_id.clone()),
            resumed_from,
            successor_run_id,
        }
    }

    /// The run that delivers for the run of a document that could be read.
    pub fn recovery_delivery_run_id(&self, document: Option<HostedRecoveryDocument>) -> (run_id:
        Option<RunId>)
        ensures
            run_id == delivering_run(document),
    {
        match document {
            Some(document) => document.delivery_run_id,
            None => None,
        }
    }
}

/// What was stored for a run that delivers for itself gives that run back.
pub proof fn stored_runs_deliver_for_themselves(
    document: HostedRecoveryDocument,
    run: Seq<char>,
    state: (bool, Option<RunId>, Option<RunId>),
)
    requires
        delivers_for_itself(document, run, state),
    ensures
        run_name(delivering_run(Some(document))) == Some(run),
        delivering_run(None) is None,
{
}

/// What is stored for a run that delivers for itself holds everything that it was
/// stored with, and whatever a document says of who delivers is what is read.
pub proof fn documents_keep_what_they_were_given(
    document: HostedRecoveryDocument,
    run: RunId,
    state: (bool, Option<RunId>, Option<RunId>),
)
    ensures
        delivers_for_itself(document, run@, state) ==> {
            &&& document.recoverable == state.0
            &&& document.run_id is Some && document.run_id->0@ == run@
            &&& document.delivery_run_id is Some && document.delivery_run_id->0@ == run@
            &&& document.resumed_from == state.1
            &&& document.successor_run_id == state.2
        },
        delivering_run(Some(document)) == document.delivery_run_id,
        delivering_run(None) is None,
        run_name(Some(run)) == Some(run@),
        run_name(None) is None,
{
}

/// To refit an allocator replaces its filesystem, and its source where one is
/// given, and nothing else.
pub proof fn refitting_replaces_nothing_else<F>(
    allocator: ProductionCapsuleAllocator<F>,
    source: Vec<u8>,
    prepare: F,
)
    ensures
        refitted(allocator, Some(source), prepare).source_override == Some(source),
        refitted(allocator, None, prepare).source_override == allocator.source_override,
        forall|given: Option<Vec<u8>>|
            ({
                let after = #[trigger] refitted(allocator, given, prepare);
                &&& after.prepare_filesystem == prepare
                &&& after.storage_root == allocator.storage_root
                &&& after.allocation_turns == allocator.allocation_turns
            }),
{
}

} // verus!
