//! What a hook is for: its script is run as it is, and what becomes of its shell
//! is what becomes of it.
use crate::environment::hook::{
    announcement_text, hook_next, hook_run, hook_start, outcome_result, phase_failure, phase_name,
    plans, report_text, script_of, shell_ended, succeeded, Confinement, HookEvent, HookOutcome,
    HookPhase, HookRequest, HookRun, LaunchPlan, Stream,
};
use crate::failure::{CapsuleAllocationUnavailable, CapsuleCleanupUnavailable};
use crate::history::{among, found_before_or_last};
use crate::text::white_space;
use vstd::prelude::*;

verus! {

/// The failures of the two phases are told apart, and so are their names.
pub proof fn phases_are_told_apart()
    ensures
        phase_failure(HookPhase::Setup) == CapsuleAllocationUnavailable::EnvironmentSetup,
        phase_failure(HookPhase::Startup) == CapsuleAllocationUnavailable::EnvironmentStartup,
        phase_name(HookPhase::Setup)@ == "setup"@,
        phase_name(HookPhase::Startup)@ == "startup"@,
{
}

/// A hook succeeds exactly if its shell exited and said so; the words of the
/// status do not matter, and a shell that was lost or took too long has failed.
pub proof fn the_shell_decides(success: bool, status: String)
    ensures
        succeeded(HookOutcome::Exited { success, status }) == success,
        !succeeded(HookOutcome::Unavailable),
        !succeeded(HookOutcome::Timeout),
{
}

/// The log names the phase of a hook and says how its shell ended, with the
/// whole status of a shell that failed and no status of one that succeeded.
pub proof fn reports_name_the_phase_and_the_end(phase: HookPhase, status: String)
    ensures
        ({
            let hook = if phase == HookPhase::Setup {
                "Environment "@ + "setup"@
            } else {
                "Environment "@ + "startup"@
            };
            &&& announcement_text(phase) == hook + " started"@
            &&& report_text(phase, HookOutcome::Exited { success: true, status }) == hook
                + " completed"@
            &&& report_text(phase, HookOutcome::Exited { success: false, status }) == hook
                + " failed: "@ + status@
            &&& report_text(phase, HookOutcome::Unavailable) == hook
                + " process became unavailable"@
            &&& report_text(phase, HookOutcome::Timeout) == hook
                + " exceeded the 15 minute timeout"@
        }),
{
    let hook = "Environment "@ + phase_name(phase)@;
    assert(report_text(phase, HookOutcome::Exited { success: false, status }) =~= hook
        + " failed: "@ + status@);
}

/// A script is run exactly if it has a character that is no white space, and
/// then with every character that it has.
pub proof fn scripts_are_taken_as_they_are(text: &str)
    ensures
        script_of(None) is None,
        (exists|i: int| 0 <= i < text@.len() && !white_space(#[trigger] text@[i])) ==> script_of(
            Some(text),
        ) == Some(text@),
        (forall|i: int| 0 <= i < text@.len() ==> white_space(#[trigger] text@[i])) ==> script_of(
            Some(text),
        ) is None,
{
}

/// The shell of a hook is bash with seven arguments.  The last is the script of
/// the request, character by character; the others have it read no startup file
/// and stop at the first command that fails, also within a pipe.
pub proof fn shells_run_the_script_of_the_request(
    request: HookRequest,
    text: &str,
    plan: LaunchPlan,
    i: int,
)
    requires
        request.script == Some(text),
        script_of(request.script) is Some,
        plans(request, script_of(request.script)->0, plan),
        0 <= i < text@.len(),
    ensures
        plan.program@ == "/bin/bash"@,
        plan.arguments@.len() == 7,
        plan.arguments@[0]@ == "--noprofile"@,
        plan.arguments@[1]@ == "--norc"@,
        plan.arguments@[2]@ == "-e"@,
        plan.arguments@[3]@ == "-o"@,
        plan.arguments@[4]@ == "pipefail"@,
        plan.arguments@[5]@ == "-c"@,
        plan.arguments@[6]@.len() == text@.len(),
        plan.arguments@[6]@[i] == text@[i],
        plan.arguments@[6]@ == text@,
{
    let views = plan.arguments@.map_values(|argument: String| argument@);
    assert(views.len() == 7);
    assert forall|k: int| 0 <= k < 7 implies #[trigger] views[k] == plan.arguments@[k]@ by {}
    assert(views[0] == plan.arguments@[0]@);
    assert(views[1] == plan.arguments@[1]@);
    assert(views[2] == plan.arguments@[2]@);
    assert(views[3] == plan.arguments@[3]@);
    assert(views[4] == plan.arguments@[4]@);
    assert(views[5] == plan.arguments@[5]@);
    assert(views[6] == plan.arguments@[6]@);
}

/// A shell starts where its request says and sees the variables of its request
/// and no others.  It reads nothing, both its outputs are piped, and it dies with
/// its owner.  Setup is confined to a process group and startup to the identity
/// that hosts the run.
pub proof fn shells_are_cut_off_from_the_host(
    request: HookRequest,
    script: Seq<char>,
    plan: LaunchPlan,
)
    requires
        plans(request, script, plan),
    ensures
        plan.directory@ == request.directory@,
        plan.environment == request.environment,
        !plan.inherits_environment,
        plan.stdin == Stream::Null,
        plan.stdout == Stream::Piped,
        plan.stderr == Stream::Piped,
        plan.kill_on_drop,
        plan.confinement == Confinement::ProcessGroup <==> request.phase == HookPhase::Setup,
        plan.confinement == Confinement::HostedIdentity <==> request.phase == HookPhase::Startup,
{
}

/// A hook with a script gets under way on Linux and fails elsewhere with the
/// failure of its phase; one without is done, wherever it is.
pub proof fn hooks_get_under_way_on_linux(phase: HookPhase, text: &str)
    ensures
        forall|linux: bool| #[trigger]
            hook_start(phase, None, linux) == HookRun::Settled(Ok(())),
        (forall|i: int| 0 <= i < text@.len() ==> white_space(#[trigger] text@[i])) ==> forall|
            linux: bool,
        | #[trigger] hook_start(phase, Some(text), linux) == HookRun::Settled(Ok(())),
        (exists|i: int| 0 <= i < text@.len() && !white_space(#[trigger] text@[i])) ==> {
            &&& hook_start(phase, Some(text), true) == HookRun::Announce { phase }
            &&& hook_start(phase, Some(text), false) == HookRun::Settled(
                Err(
                    if phase == HookPhase::Setup {
                        CapsuleAllocationUnavailable::EnvironmentSetup
                    } else {
                        CapsuleAllocationUnavailable::EnvironmentStartup
                    },
                ),
            )
        },
{
}

/// Whatever a reply says that went well takes a hook on: from its announcement
/// to the start of its shell, the wait for that very shell, in a setup hook the
/// end of its output, and the report of that very outcome.
pub proof fn hooks_go_on_with_what_they_learn(
    phase: HookPhase,
    process: usize,
    outcome: HookOutcome,
)
    ensures
        hook_next(HookRun::Announce { phase }, HookEvent::Logged(Ok(()))) == (HookRun::Spawn {
            phase,
        }),
        hook_next(HookRun::Spawn { phase }, HookEvent::Spawned(Ok(process))) == (HookRun::Wait {
            phase,
            process,
        }),
        phase == HookPhase::Setup ==> hook_next(
            HookRun::Wait { phase, process },
            HookEvent::Waited(Ok(outcome)),
        ) == (HookRun::FinishOutput { phase, outcome }),
        phase == HookPhase::Startup ==> hook_next(
            HookRun::Wait { phase, process },
            HookEvent::Waited(Ok(outcome)),
        ) == (HookRun::Report { phase, outcome }),
        hook_next(HookRun::FinishOutput { phase, outcome }, HookEvent::OutputFinished(Ok(())))
            == (HookRun::Report { phase, outcome }),
{
}

/// A hook of either phase whose report is logged succeeds if its shell exited
/// with success, and fails with the failure of its phase if it did not.
pub proof fn hooks_succeed_with_their_shell(phase: HookPhase, outcome: HookOutcome)
    ensures
        outcome is Exited && outcome->success ==> {
            &&& outcome_result(phase, outcome) == Ok::<(), CapsuleAllocationUnavailable>(())
            &&& hook_next(HookRun::Report { phase, outcome }, HookEvent::Logged(Ok(())))
                == HookRun::Settled(Ok(()))
        },
        !(outcome is Exited && outcome->success) ==> {
            let failure = if phase == HookPhase::Setup {
                CapsuleAllocationUnavailable::EnvironmentSetup
            } else {
                CapsuleAllocationUnavailable::EnvironmentStartup
            };
            &&& outcome_result(phase, outcome) == Err::<(), CapsuleAllocationUnavailable>(failure)
            &&& hook_next(HookRun::Report { phase, outcome }, HookEvent::Logged(Ok(())))
                == HookRun::Settled(Err(failure))
        },
{
}

/// An error ends a hook and is its result as it is; output that could not be
/// ended is the failure of its phase.
pub proof fn errors_end_a_hook(
    phase: HookPhase,
    process: usize,
    outcome: HookOutcome,
    error: CapsuleAllocationUnavailable,
)
    ensures
        hook_next(HookRun::Announce { phase }, HookEvent::Logged(Err(error))) == HookRun::Settled(
            Err(error),
        ),
        hook_next(HookRun::Spawn { phase }, HookEvent::Spawned(Err(error))) == HookRun::Settled(
            Err(error),
        ),
        hook_next(HookRun::Wait { phase, process }, HookEvent::Waited(Err(error)))
            == HookRun::Settled(Err(error)),
        hook_next(HookRun::Report { phase, outcome }, HookEvent::Logged(Err(error)))
            == HookRun::Settled(Err(error)),
        hook_next(
            HookRun::FinishOutput { phase, outcome },
            HookEvent::OutputFinished(Err(CapsuleCleanupUnavailable)),
        ) == HookRun::Settled(
            Err(
                if phase == HookPhase::Setup {
                    CapsuleAllocationUnavailable::EnvironmentSetup
                } else {
                    CapsuleAllocationUnavailable::EnvironmentStartup
                },
            ),
        ),
{
}

/// A reply that a hook is not waiting for changes nothing, and a hook that has
/// settled stays as it is.
pub proof fn hooks_heed_only_what_they_wait_for(step: HookRun, event: HookEvent)
    ensures
        (step is Announce || step is Report) && !(event is Logged) ==> hook_next(step, event)
            == step,
        step is Spawn && !(event is Spawned) ==> hook_next(step, event) == step,
        step is Wait && !(event is Waited) ==> hook_next(step, event) == step,
        step is FinishOutput && !(event is OutputFinished) ==> hook_next(step, event) == step,
        step is Settled ==> hook_next(step, event) == step,
{
}

/// The reply starts the shell at this place.
pub open spec fn spawns(phase: HookPhase, process: usize) -> spec_fn(
    Seq<HookEvent>,
    HookEvent,
) -> bool {
    |before: Seq<HookEvent>, event: HookEvent|
        {
            &&& hook_run(HookRun::Announce { phase }, before) is Spawn
            &&& event == HookEvent::Spawned(Ok(process))
        }
}

/// The shell that a hook waits for is the one that was started for it, and what
/// it reports is how that wait ended; of any hook that has settled well, the
/// shell exited with success.
pub proof fn hooks_wait_for_their_own_shell(phase: HookPhase, events: Seq<HookEvent>)
    ensures
        match hook_run(HookRun::Announce { phase }, events) {
            HookRun::Wait { process, .. } => among(events, spawns(phase, process)),
            HookRun::FinishOutput { outcome, .. } => shell_ended(phase, events, outcome),
            HookRun::Report { outcome, .. } => shell_ended(phase, events, outcome),
            HookRun::Settled(Ok(_)) => exists|outcome: HookOutcome|
                outcome is Exited && outcome->success && #[trigger] shell_ended(
                    phase,
                    events,
                    outcome,
                ),
            _ => true,
        },
    decreases events.len(),
{
    crate::environment::hook::hooks_succeed_only_with_their_shell(phase, events);
    if events.len() > 0 {
        hooks_wait_for_their_own_shell(phase, events.drop_last());
        if let HookRun::Wait { process, .. } = hook_run(HookRun::Announce { phase }, events) {
            found_before_or_last(events, spawns(phase, process));
        }
    }
}

} // verus!
