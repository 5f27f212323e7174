use std::collections::BTreeMap;
use zeroshot::failure::{CapsuleAllocationUnavailable, PreparationFailure, RunRuntimeExit};
use zeroshot::preparation::capsule::{
    capsule_announcement, AllocationRequest, CapsuleEvent, PreparationStart, PrepareCapsule,
    ResumePreparation, StoredRun,
};
use zeroshot::preparation::cleanup::{
    CleanupError, CleanupEvent, ForceEvent, ForcePreparing, PreparationCleanup,
};
use zeroshot::preparation::owner::{OwnerEvent, PreparationOwner, StartEvent, StartPreparation};
use zeroshot::preparation::prepare::{
    Allocation, PrepareRun, PrepareRunEvent, PREPARATION_TIMEOUT_SECONDS,
};
use zeroshot::preparation::progress::{
    LedgerPreparationProgress, ProgressEvent, ProgressLog, SafeLogEvent, SafeLogStream,
};
use zeroshot::preparation::runtimes::{reconcile_owned_preparation, Reconciliation, RuntimeSlot};
use zeroshot::preparation::task::PreparationTask;
use zeroshot::run_id::RunId;
use zeroshot::run_map::RunMap;

/// What a host saw of a cleanup, in order.
#[derive(Debug, PartialEq)]
enum Seen {
    Destroyed(RunRuntimeExit),
    ForceStopRequested,
    Terminal(&'static str),
    Freed,
    RuntimeFinished,
}

type Task = PreparationTask<&'static str>;

/// A ledger with one run, and what was done to it.
struct Host {
    terminal: bool,
    runtimes: RunMap<RuntimeSlot<Task, u8>>,
    seen: Vec<Seen>,
}

fn the_run() -> RunId {
    RunId::new("run".to_owned())
}

fn fresh() -> Task {
    PreparationTask::new("claim")
}

impl Host {
    /// A host that has the run registered as being prepared.
    fn new() -> Self {
        let mut runtimes = RunMap::default();
        runtimes.insert(the_run(), RuntimeSlot::Preparing(fresh()));
        Self {
            terminal: false,
            runtimes,
            seen: Vec::new(),
        }
    }

    fn clean_up(&mut self, task: &Task, force: bool) -> Result<(), CleanupError<&str>> {
        let mut step = PreparationCleanup::retry_preparation_cleanup();
        loop {
            let event = match step {
                PreparationCleanup::LookUp => CleanupEvent::LookedUp(Ok(Some(self.terminal))),
                PreparationCleanup::Retire => {
                    self.seen.push(Seen::RuntimeFinished);
                    CleanupEvent::Retired
                }
                PreparationCleanup::Destroy { failure } => {
                    assert!(!self.terminal);
                    self.seen.push(Seen::Destroyed(failure.exit));
                    CleanupEvent::Destroyed(true)
                }
                PreparationCleanup::RequestForceStop { .. } => {
                    self.seen.push(Seen::ForceStopRequested);
                    CleanupEvent::ForceStopRequested(Ok(()))
                }
                PreparationCleanup::Append { failure } => {
                    self.terminal = true;
                    self.seen.push(Seen::Terminal(failure.reason));
                    CleanupEvent::Appended(Ok(()))
                }
                PreparationCleanup::Release => {
                    step = step.release(&mut self.runtimes, &the_run());
                    assert_eq!(self.runtimes.get(&the_run()), None);
                    self.seen.push(Seen::Freed);
                    continue;
                }
                PreparationCleanup::Settled(result) => return result,
            };
            step = step.next(task, force, event);
        }
    }
}

fn start(resume: Option<ResumePreparation<u8>>) -> PreparationStart<u8, u16, u8> {
    let mut environment = BTreeMap::new();
    environment.insert("NAME".to_owned(), "value".to_owned());
    PreparationStart {
        stored: StoredRun {
            run_id: RunId::new("run".to_owned()),
            admitted: 7,
            rest: 700,
        },
        environment,
        resume,
    }
}

fn resumed() -> PreparationStart<u8, u16, u8> {
    start(Some(ResumePreparation {
        source_run_id: RunId::new("earlier".to_owned()),
        selection: 9,
    }))
}

fn woken(allocation: Allocation<u8>) -> PrepareRunEvent<u8> {
    PrepareRunEvent::Woken {
        timed_out: false,
        allocation,
    }
}

fn lost(reason: &'static str) -> PreparationFailure {
    PreparationFailure {
        reason,
        exit: RunRuntimeExit::RuntimeLost,
    }
}

fn stopped() -> PreparationFailure {
    PreparationFailure {
        reason: "force_stopped",
        exit: RunRuntimeExit::ForceStopped,
    }
}

#[test]
fn failures_carry_their_reason_and_exit() {
    assert_eq!(
        PreparationFailure::unavailable("runtime_unavailable"),
        lost("runtime_unavailable")
    );
    assert_eq!(PreparationFailure::cancelled(), stopped());
    assert_eq!(PREPARATION_TIMEOUT_SECONDS, 1800);
}

#[test]
fn wave9_cli_contract_settled_allocation_refusal_cleans_up_before_terminal_failure() {
    let mut host = Host::new();
    let mut capsule: PrepareCapsule<u8> = PrepareCapsule::prepare_capsule(&start(None));
    capsule = capsule.next(CapsuleEvent::Logged);
    capsule = capsule.next(CapsuleEvent::TokenFetched(None));
    capsule = capsule.next(CapsuleEvent::AllocationRefused("runtime_unavailable"));
    let PrepareCapsule::Settled(Err(failure)) = capsule else {
        panic!("the allocation was refused");
    };
    let (_, mut task) = StartPreparation::<()>::start_preparation("claim");
    assert_eq!(failure, lost("runtime_unavailable"));
    let prepared = PrepareRun::prepare_run(&task).next(&task, woken(Allocation::of(Err(failure))));
    let PrepareRun::Settled(result) = prepared else {
        panic!("the preparation is over");
    };
    let mut owner = PreparationOwner::own_preparation();
    owner = owner.next(&mut task, OwnerEvent::Prepared(result));
    assert_eq!(owner, PreparationOwner::Cleanup { force: false });
    assert!(!task.is_finished());
    let cleaned = host.clean_up(&task, false).is_ok();
    owner = owner.next(&mut task, OwnerEvent::Cleaned(cleaned));
    assert_eq!(owner, PreparationOwner::Finished);
    assert!(task.is_finished());
    assert_eq!(
        host.seen,
        vec![
            Seen::Destroyed(RunRuntimeExit::RuntimeLost),
            Seen::Terminal("runtime_unavailable"),
            Seen::Freed,
        ]
    );
}

#[test]
fn force_cancels_preparation_without_waiting_for_allocation_or_starting_nodes() {
    let mut host = Host::new();
    let (_, mut task) = StartPreparation::<()>::start_preparation("claim");
    let prepare = PrepareRun::prepare_run(&task);
    let mut owner = PreparationOwner::own_preparation();
    // A replay meanwhile finds the preparation under way and leaves it alone.
    assert_eq!(
        reconcile_owned_preparation(&RuntimeSlot::<_, u8>::Preparing(&task)),
        Reconciliation::Nothing
    );
    let mut force = ForcePreparing::<&str>::force_preparing(&mut task);
    assert_eq!(force, ForcePreparing::Await);
    assert!(task.cancelled);
    // The allocation is still pending, and the run is never handed off.
    let prepared = prepare.next(&task, woken(Allocation::Pending));
    assert_eq!(prepared, PrepareRun::Settled(Err(stopped())));
    owner = owner.next(&mut task, OwnerEvent::Prepared(Err(stopped())));
    let cleaned = host.clean_up(&task, false).is_ok();
    owner = owner.next(&mut task, OwnerEvent::Cleaned(cleaned));
    assert_eq!(owner, PreparationOwner::Finished);
    force = force.next(&task, ForceEvent::Finished);
    force = force.look_up(&host.runtimes, &the_run());
    assert_eq!(force, ForcePreparing::Settled(Ok(())));
    assert_eq!(
        host.seen,
        vec![
            Seen::Destroyed(RunRuntimeExit::ForceStopped),
            Seen::ForceStopRequested,
            Seen::Terminal("force_stopped"),
            Seen::Freed,
        ]
    );
}

#[test]
fn a_cancellation_counts_before_everything_else() {
    let mut task = fresh();
    task.cancelled = true;
    for timed_out in [true, false] {
        for allocation in [
            Allocation::Pending,
            Allocation::Ready(1),
            Allocation::Failed(lost("runtime_unavailable")),
            Allocation::Panicked,
        ] {
            let event = PrepareRunEvent::Woken {
                timed_out,
                allocation,
            };
            assert_eq!(
                PrepareRun::Allocate.next(&task, event),
                PrepareRun::Settled(Err(stopped()))
            );
        }
    }
}

#[test]
fn a_timeout_counts_before_the_allocation() {
    let event = PrepareRunEvent::Woken {
        timed_out: true,
        allocation: Allocation::Ready(1),
    };
    assert_eq!(
        PrepareRun::Allocate.next(&fresh(), event),
        PrepareRun::Settled(Err(lost("environment_preparation_timeout")))
    );
}

#[test]
fn a_preparation_that_is_cancelled_before_it_begins_asks_for_nothing() {
    let mut task = fresh();
    assert_eq!(PrepareRun::<u8>::prepare_run(&task), PrepareRun::Allocate);
    task.cancelled = true;
    let step = PrepareRun::<u8>::prepare_run(&task);
    assert_eq!(step, PrepareRun::Settled(Err(stopped())));
    let step = step.next(&task, woken(Allocation::Ready(1)));
    assert_eq!(step, PrepareRun::Settled(Err(stopped())));
}

#[test]
fn a_preparation_follows_its_allocation() {
    let task = fresh();
    let allocate = || PrepareRun::Allocate;
    assert_eq!(allocate().next(&task, woken(Allocation::Pending)), allocate());
    assert_eq!(
        allocate().next(&task, woken(Allocation::Panicked)),
        PrepareRun::Settled(Err(lost("runtime_unavailable")))
    );
    assert_eq!(
        allocate().next(&task, woken(Allocation::Ready(5))),
        PrepareRun::HandOff { capsule: 5 }
    );
    assert_eq!(
        PrepareRun::<u8>::Starting.next(&task, PrepareRunEvent::HandedOff(true)),
        PrepareRun::Settled(Ok(()))
    );
    assert_eq!(
        PrepareRun::<u8>::Starting.next(&task, PrepareRunEvent::HandedOff(false)),
        PrepareRun::Settled(Err(lost("runtime_unavailable")))
    );
}

#[test]
fn a_run_is_started_with_what_was_prepared_for_it() {
    let start = start(None);
    let task = fresh();
    let (step, run) = PrepareRun::HandOff { capsule: 5 }.hand_off(&start, &task);
    assert_eq!(step, PrepareRun::Starting);
    let run = run.unwrap();
    assert_eq!(run.stored.run_id.as_str(), "run");
    assert_eq!(run.stored.admitted, 7);
    assert_eq!(run.stored.rest, 700);
    assert_eq!(run.environment, &start.environment);
    assert_eq!(*run.controller_claim, "claim");
    assert_eq!(run.capsule, 5);
    // Once handed over it is not handed over again.
    let (step, again) = step.hand_off(&start, &task);
    assert_eq!(step, PrepareRun::Starting);
    assert!(again.is_none());
}

#[test]
fn a_run_that_is_cancelled_at_the_last_moment_is_not_started() {
    let start = start(None);
    let mut task = fresh();
    task.cancelled = true;
    let (step, run) = PrepareRun::HandOff { capsule: 5 }.hand_off(&start, &task);
    assert_eq!(step, PrepareRun::Settled(Err(stopped())));
    assert!(run.is_none());
}

#[test]
fn a_handoff_is_not_interrupted() {
    let mut task = fresh();
    task.cancelled = true;
    let starting = || PrepareRun::<u8>::Starting;
    assert_eq!(starting().next(&task, woken(Allocation::Ready(1))), starting());
    assert_eq!(
        starting().next(&task, PrepareRunEvent::HandedOff(true)),
        PrepareRun::Settled(Ok(()))
    );
}

#[test]
fn a_preparation_is_observed_and_registered_before_it_runs() {
    let mut runtimes: RunMap<RuntimeSlot<Task, u8>> = RunMap::default();
    let (step, task) = StartPreparation::<&str>::start_preparation("claim");
    assert_eq!(step, StartPreparation::Observe);
    // Nothing is registered before the run is observed.
    let step = step.register(&mut runtimes, the_run(), fresh());
    assert_eq!(step, StartPreparation::Observe);
    assert_eq!(runtimes.get(&the_run()), None);
    let step = step.next(StartEvent::Observed(Ok(())));
    assert_eq!(step, StartPreparation::Register);
    let step = step.next(StartEvent::Launched);
    assert_eq!(step, StartPreparation::Register);
    let step = step.register(&mut runtimes, the_run(), task);
    assert_eq!(step, StartPreparation::Launch);
    assert_eq!(
        runtimes.get(&the_run()),
        Some(&RuntimeSlot::Preparing(PreparationTask {
            cancelled: false,
            finished: false,
            failure: None,
            controller_claim: "claim",
        }))
    );
    let step = step.next(StartEvent::Launched);
    assert_eq!(step, StartPreparation::Settled(Ok(())));
    assert_eq!(
        StartPreparation::Observe.next(StartEvent::Observed(Err("full"))),
        StartPreparation::Settled(Err("full"))
    );
}

#[test]
fn a_run_that_started_needs_no_cleanup() {
    let mut task = fresh();
    let owner = PreparationOwner::Prepare.next(&mut task, OwnerEvent::Prepared(Ok(())));
    assert_eq!(owner, PreparationOwner::Finished);
    assert!(task.finished);
    assert_eq!(task.failure, None);
}

#[test]
fn a_panic_counts_as_an_unavailable_runtime() {
    let mut task = fresh();
    let owner = PreparationOwner::Prepare.next(&mut task, OwnerEvent::PreparePanicked);
    assert_eq!(owner, PreparationOwner::Cleanup { force: false });
    assert_eq!(task.failure, Some(lost("runtime_unavailable")));
    assert!(!task.finished);
}

#[test]
fn a_failed_cleanup_is_reported_before_the_finish() {
    let mut task = fresh();
    let mut owner = PreparationOwner::own_preparation();
    owner = owner.next(&mut task, OwnerEvent::Prepared(Err(lost("runtime_unavailable"))));
    owner = owner.next(&mut task, OwnerEvent::Cleaned(false));
    assert_eq!(owner, PreparationOwner::ReportFailed);
    assert!(!task.finished);
    owner = owner.next(&mut task, OwnerEvent::Reported);
    assert_eq!(owner, PreparationOwner::Finished);
    assert!(task.finished);
    // Whoever submits the run again tries the cleanup once more.
    assert_eq!(
        reconcile_owned_preparation(&RuntimeSlot::<_, u8>::Preparing(&task)),
        Reconciliation::Cleanup { force: false }
    );
    assert_eq!(
        reconcile_owned_preparation(&RuntimeSlot::<&Task, u8>::Running(1)),
        Reconciliation::Nothing
    );
}

#[test]
fn an_orphan_ends_as_lost() {
    let mut host = Host::new();
    assert_eq!(host.clean_up(&fresh(), false), Ok(()));
    assert_eq!(
        host.seen,
        vec![
            Seen::Destroyed(RunRuntimeExit::RuntimeLost),
            Seen::Terminal("runtime_lost"),
            Seen::Freed,
        ]
    );
}

#[test]
fn force_overrides_the_failure_of_the_preparation() {
    let mut host = Host::new();
    let mut task = fresh();
    task.failure = Some(lost("runtime_unavailable"));
    assert_eq!(task.cleanup_failure(false), lost("runtime_unavailable"));
    assert_eq!(task.cleanup_failure(true), stopped());
    assert_eq!(host.clean_up(&task, true), Ok(()));
    assert_eq!(
        host.seen,
        vec![
            Seen::Destroyed(RunRuntimeExit::ForceStopped),
            Seen::ForceStopRequested,
            Seen::Terminal("force_stopped"),
            Seen::Freed,
        ]
    );
}

#[test]
fn a_run_with_a_result_keeps_it() {
    let mut host = Host::new();
    host.terminal = true;
    assert_eq!(host.clean_up(&fresh(), true), Ok(()));
    assert_eq!(host.seen, vec![Seen::RuntimeFinished, Seen::Freed]);
}

#[test]
fn a_second_cleanup_appends_no_second_result() {
    let mut host = Host::new();
    let task = fresh();
    assert_eq!(host.clean_up(&task, false), Ok(()));
    assert_eq!(host.clean_up(&task, true), Ok(()));
    let terminals = host
        .seen
        .iter()
        .filter(|seen| matches!(seen, Seen::Terminal(_)))
        .count();
    assert_eq!(terminals, 1);
}

#[test]
fn a_cleanup_that_fails_keeps_the_run_owned() {
    let task = fresh();
    let look_up = || PreparationCleanup::<&str>::retry_preparation_cleanup();
    let ledger = || PreparationCleanup::Settled(Err(CleanupError::Ledger("ledger")));
    assert_eq!(
        look_up().next(&task, false, CleanupEvent::LookedUp(Err("ledger"))),
        ledger()
    );
    let destroy = || look_up().next(&task, true, CleanupEvent::LookedUp(Ok(None)));
    assert_eq!(destroy(), PreparationCleanup::Destroy { failure: stopped() });
    assert_eq!(
        destroy().next(&task, true, CleanupEvent::Destroyed(false)),
        PreparationCleanup::Settled(Err(CleanupError::RuntimeCleanup))
    );
    let request = || destroy().next(&task, true, CleanupEvent::Destroyed(true));
    assert_eq!(
        request().next(&task, true, CleanupEvent::ForceStopRequested(Err("ledger"))),
        ledger()
    );
    let append = request().next(&task, true, CleanupEvent::ForceStopRequested(Ok(())));
    assert_eq!(
        append.next(&task, true, CleanupEvent::Appended(Err("ledger"))),
        ledger()
    );
}

#[test]
fn a_failed_cleanup_keeps_the_lease_for_a_retry() {
    let mut host = Host::new();
    let mut task = fresh();
    task.failure = Some(lost("runtime_unavailable"));
    let failed = PreparationCleanup::<&str>::Settled(Err(CleanupError::RuntimeCleanup));
    let failed = failed.release(&mut host.runtimes, &the_run());
    assert_eq!(
        failed,
        PreparationCleanup::Settled(Err(CleanupError::RuntimeCleanup))
    );
    assert_eq!(
        host.runtimes.get(&the_run()),
        Some(&RuntimeSlot::Preparing(fresh()))
    );
    assert_eq!(host.clean_up(&task, false), Ok(()));
    assert_eq!(host.runtimes.get(&the_run()), None);
    assert_eq!(task.controller_claim, "claim");
}

#[test]
fn force_waits_until_the_preparation_is_over() {
    let mut task = fresh();
    let force = ForcePreparing::<&str>::force_preparing(&mut task);
    let force = force.next(&task, ForceEvent::Finished);
    assert_eq!(force, ForcePreparing::Await);
    task.finished = true;
    let force = force.next(&task, ForceEvent::Finished);
    assert_eq!(force, ForcePreparing::LookUp);
}

#[test]
fn force_follows_what_became_of_the_run() {
    let mut task = fresh();
    task.finished = true;
    let mut runtimes: RunMap<RuntimeSlot<Task, u8>> = RunMap::default();
    let look_up = || ForcePreparing::<&str>::LookUp;
    assert_eq!(
        ForcePreparing::<&str>::Await.look_up(&runtimes, &the_run()),
        ForcePreparing::Await
    );
    assert_eq!(
        look_up().look_up(&runtimes, &the_run()),
        ForcePreparing::Settled(Ok(()))
    );
    runtimes.insert(the_run(), RuntimeSlot::Running(1));
    let running = look_up().look_up(&runtimes, &the_run());
    assert_eq!(running, ForcePreparing::ForceRunning);
    assert_eq!(
        running.next(&task, ForceEvent::RunningForced(Err("engine"))),
        ForcePreparing::Settled(Err("engine"))
    );
    runtimes.insert(the_run(), RuntimeSlot::Preparing(fresh()));
    let cleanup = look_up().look_up(&runtimes, &the_run());
    assert_eq!(cleanup, ForcePreparing::Cleanup { force: true });
    assert_eq!(
        cleanup.next(&task, ForceEvent::Cleaned(Ok(()))),
        ForcePreparing::Settled(Ok(()))
    );
}

#[test]
fn a_capsule_is_announced_before_it_is_asked_for() {
    assert_eq!(capsule_announcement(), "Preparing execution environment");
    let mut step: PrepareCapsule<u8> = PrepareCapsule::prepare_capsule(&resumed());
    assert_eq!(step, PrepareCapsule::Announce { retained: true });
    step = step.next(CapsuleEvent::Allocated(1));
    assert_eq!(step, PrepareCapsule::Announce { retained: true });
    step = step.next(CapsuleEvent::Logged);
    assert_eq!(step, PrepareCapsule::FetchToken { retained: true });
    step = step.next(CapsuleEvent::TokenFetched(Some("token".to_owned())));
    assert_eq!(
        step,
        PrepareCapsule::Allocate {
            retained: true,
            github_token: Some("token".to_owned())
        }
    );
    step = step.next(CapsuleEvent::Allocated(42));
    assert_eq!(step, PrepareCapsule::Settled(Ok(42)));
    assert_eq!(Allocation::of(Ok(42)), Allocation::Ready(42));
}

#[test]
fn a_capsule_that_cannot_be_had_is_a_lost_runtime() {
    let announce = || PrepareCapsule::<u8>::prepare_capsule(&resumed());
    assert_eq!(
        announce().next(CapsuleEvent::LogRefused("log_code")),
        PrepareCapsule::Settled(Err(lost("log_code")))
    );
    let fetch = || announce().next(CapsuleEvent::Logged);
    assert_eq!(
        fetch().next(CapsuleEvent::TokenRefused),
        PrepareCapsule::Settled(Err(lost("runtime_unavailable")))
    );
    let allocate = || fetch().next(CapsuleEvent::TokenFetched(None));
    assert_eq!(
        allocate().next(CapsuleEvent::AllocationRefused("environment_setup_failed")),
        PrepareCapsule::Settled(Err(lost("environment_setup_failed")))
    );
    assert_eq!(
        allocate().next(CapsuleEvent::CleanupUnconfirmed),
        PrepareCapsule::Settled(Err(lost("runtime_unavailable")))
    );
}

#[test]
fn a_resumed_run_asks_for_what_the_earlier_one_left() {
    let token = Some("token".to_owned());
    let start = resumed();
    match start.allocation_request(&token) {
        AllocationRequest::Retained {
            run_id,
            admitted,
            github_token,
            environment,
            selection,
            source_run_id,
        } => {
            assert_eq!(run_id.as_str(), "run");
            assert_eq!(*admitted, 7);
            assert_eq!(github_token, Some("token"));
            assert_eq!(environment.get("NAME").map(String::as_str), Some("value"));
            assert_eq!(*selection, 9);
            assert_eq!(source_run_id.as_str(), "earlier");
        }
        AllocationRequest::Fresh { .. } => panic!("the run resumes another"),
    }
}

#[test]
fn any_other_run_asks_for_a_new_capsule() {
    let start = start(None);
    match start.allocation_request(&None) {
        AllocationRequest::Fresh {
            run_id,
            admitted,
            github_token,
            environment,
        } => {
            assert_eq!(run_id.as_str(), "run");
            assert_eq!(*admitted, 7);
            assert_eq!(github_token, None);
            assert_eq!(environment.len(), 1);
        }
        AllocationRequest::Retained { .. } => panic!("the run resumes nothing"),
    }
}

#[test]
fn progress_is_logged_for_the_run_itself() {
    let progress = LedgerPreparationProgress { run_id: the_run() };
    let mut step = progress.log("2026-01-01T00:00:00Z".to_owned(), "raw line");
    assert_eq!(
        step,
        ProgressLog::Check {
            run_id: &the_run(),
            timestamp: "2026-01-01T00:00:00Z".to_owned(),
            line: "raw line",
        }
    );
    step = step.next(ProgressEvent::Checked(Some("line".to_owned())));
    assert_eq!(
        step,
        ProgressLog::Append {
            run_id: &the_run(),
            event: SafeLogEvent {
                execution: None,
                timestamp: "2026-01-01T00:00:00Z".to_owned(),
                stream: SafeLogStream::System,
                line: "line".to_owned(),
            },
        }
    );
    step = step.next(ProgressEvent::Appended(true));
    assert_eq!(step, ProgressLog::Settled(Ok(())));
}

#[test]
fn progress_that_cannot_be_logged_is_an_error() {
    let failed = ProgressLog::Settled(Err(CapsuleAllocationUnavailable::Runtime));
    let progress = LedgerPreparationProgress { run_id: the_run() };
    let check = || progress.log("now".to_owned(), "line");
    assert_eq!(check().next(ProgressEvent::Checked(None)), failed);
    let append = check().next(ProgressEvent::Checked(Some("line".to_owned())));
    assert_eq!(append.next(ProgressEvent::Appended(false)), failed);
}
