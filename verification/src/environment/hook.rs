//! One hook of a run: how it is started, run and reported.
use crate::failure::{CapsuleAllocationUnavailable, CapsuleCleanupUnavailable};
use crate::history::{among, found_before_or_last};
use crate::text::{blank, concatenate, is_blank};
use std::collections::BTreeMap;
use vstd::prelude::*;
use vstd::string::*;

verus! {

/// The seconds after which a hook is given up.
pub const HOOK_TIMEOUT_SECONDS: u64 = 15 * 60;

#[derive(Clone, Copy, Debug, PartialEq, Eq, Structural)]
pub enum HookPhase {
    /// Runs as root before the workspace exists.
    Setup,
    /// Runs as the workspace user once the workspace is there.
    Startup,
}

pub open spec fn phase_name(phase: HookPhase) -> &'static str {
    match phase {
        HookPhase::Setup => "setup",
        HookPhase::Startup => "startup",
    }
}

pub open spec fn phase_failure(phase: HookPhase) -> CapsuleAllocationUnavailable {
    match phase {
        HookPhase::Setup => CapsuleAllocationUnavailable::EnvironmentSetup,
        HookPhase::Startup => CapsuleAllocationUnavailable::EnvironmentStartup,
    }
}

impl HookPhase {
    pub fn name(self) -> (name: &'static str)
        ensures
            name == phase_name(self),
    {
        match self {
            HookPhase::Setup => "setup",
            HookPhase::Startup => "startup",
        }
    }

    pub fn failure(self) -> (failure: CapsuleAllocationUnavailable)
        ensures
            failure == phase_failure(self),
    {
        match self {
            HookPhase::Setup => CapsuleAllocationUnavailable::EnvironmentSetup,
            HookPhase::Startup => CapsuleAllocationUnavailable::EnvironmentStartup,
        }
    }
}

/// How the shell of a hook ended.
#[derive(Debug, PartialEq, Eq)]
pub enum HookOutcome {
    /// It exited; `status` is the exit status in words.
    Exited { success: bool, status: String },
    Unavailable,
    Timeout,
}

/// Whether the shell of a hook exited with success.
pub open spec fn succeeded(outcome: HookOutcome) -> bool {
    outcome is Exited && outcome->success
}

impl HookOutcome {
    pub fn success(&self) -> (success: bool)
        ensures
            success == succeeded(*self),
    {
        match self {
            HookOutcome::Exited { success, .. } => *success,
            _ => false,
        }
    }
}

/// What the log says as a hook starts.
pub open spec fn announcement_text(phase: HookPhase) -> Seq<char> {
    "Environment "@ + phase_name(phase)@ + " started"@
}

/// What the log says of how a hook ended.
pub open spec fn report_text(phase: HookPhase, outcome: HookOutcome) -> Seq<char> {
    "Environment "@ + phase_name(phase)@ + (match outcome {
        HookOutcome::Exited { success, status } => if success {
            " completed"@
        } else {
            " failed: "@ + status@
        },
        HookOutcome::Unavailable => " process became unavailable"@,
        HookOutcome::Timeout => " exceeded the 15 minute timeout"@,
    })
}

/// What a hook comes to once its outcome is in the log.
pub open spec fn outcome_result(phase: HookPhase, outcome: HookOutcome) -> Result<
    (),
    CapsuleAllocationUnavailable,
> {
    if succeeded(outcome) {
        Ok(())
    } else {
        Err(phase_failure(phase))
    }
}

pub fn announcement(phase: HookPhase) -> (line: String)
    ensures
        line@ == announcement_text(phase),
{
    concatenate("Environment ", phase.name(), " started")
}

pub fn report_line(phase: HookPhase, outcome: &HookOutcome) -> (line: String)
    ensures
        line@ == report_text(phase, *outcome),
{
    match outcome {
        HookOutcome::Exited { success, status } => {
            if *success {
                concatenate("Environment ", phase.name(), " completed")
            } else {
                let line = concatenate("Environment ", phase.name(), " failed: ").concat(
                    status.as_str(),
                );
                assert(line@ =~= report_text(phase, *outcome));
                line
            }
        },
        HookOutcome::Unavailable => concatenate(
            "Environment ",
            phase.name(),
            " process became unavailable",
        ),
        HookOutcome::Timeout => concatenate(
            "Environment ",
            phase.name(),
            " exceeded the 15 minute timeout",
        ),
    }
}

/// What a hook comes to once the host has tried to log its report.
pub fn report_outcome(
    phase: HookPhase,
    outcome: &HookOutcome,
    logged: Result<(), CapsuleAllocationUnavailable>,
) -> (result: Result<(), CapsuleAllocationUnavailable>)
    ensures
        logged is Err ==> result == logged,
        logged is Ok ==> result == outcome_result(phase, *outcome),
{
    match logged {
        Err(error) => Err(error),
        Ok(()) => if outcome.success() {
            Ok(())
        } else {
            Err(phase.failure())
        },
    }
}

/// A hook that a run asks for.
pub struct HookRequest<'a> {
    pub phase: HookPhase,
    pub script: Option<&'a str>,
    /// The directory in which the hook starts, as the bytes of its path.
    pub directory: &'a [u8],
    /// The variables of the hook, by their names.
    pub environment: &'a BTreeMap<String, String>,
    /// The texts that must not reach the log.
    pub redactions: &'a [String],
}

/// What a standard stream of a hook is connected to.
#[derive(Clone, Copy, Debug, PartialEq, Eq, Structural)]
pub enum Stream {
    Null,
    Piped,
}

/// Whose processes a hook belongs to.
#[derive(Clone, Copy, Debug, PartialEq, Eq, Structural)]
pub enum Confinement {
    ProcessGroup,
    /// The identity that hosts the processes of the run.
    HostedIdentity,
}

pub open spec fn phase_confinement(phase: HookPhase) -> Confinement {
    match phase {
        HookPhase::Setup => Confinement::ProcessGroup,
        HookPhase::Startup => Confinement::HostedIdentity,
    }
}

/// How the shell of a hook is started.
pub struct LaunchPlan<'a> {
    pub program: &'static str,
    pub arguments: Vec<String>,
    pub directory: &'a [u8],
    /// Whether variables of the host reach the hook.
    pub inherits_environment: bool,
    pub environment: &'a BTreeMap<String, String>,
    pub stdin: Stream,
    pub stdout: Stream,
    pub stderr: Stream,
    pub kill_on_drop: bool,
    pub confinement: Confinement,
}

/// The arguments with which the shell runs a script.
pub open spec fn shell_arguments(script: Seq<char>) -> Seq<Seq<char>> {
    seq!["--noprofile"@, "--norc"@, "-e"@, "-o"@, "pipefail"@, "-c"@, script]
}

/// The script that a hook runs; none if it is missing or blank.
pub open spec fn script_of(script: Option<&str>) -> Option<Seq<char>> {
    match script {
        Some(text) => if blank(text@) {
            None
        } else {
            Some(text@)
        },
        None => None,
    }
}

/// This plan starts the shell of a hook with the given script, in the directory
/// and with the variables of the request and no others.
pub open spec fn plans(request: HookRequest, script: Seq<char>, plan: LaunchPlan) -> bool {
    &&& plan.program@ == "/bin/bash"@
    &&& plan.arguments@.map_values(|argument: String| argument@) == shell_arguments(script)
    &&& plan.directory@ == request.directory@
    &&& !plan.inherits_environment
    &&& plan.environment == request.environment
    &&& plan.stdin == Stream::Null
    &&& plan.stdout == Stream::Piped
    &&& plan.stderr == Stream::Piped
    &&& plan.kill_on_drop
    &&& plan.confinement == phase_confinement(request.phase)
}

/// The plan by which the shell of a hook runs the script of its request, if
/// there is one to run.
pub fn launch_plan<'a>(request: &HookRequest<'a>) -> (plan: Option<LaunchPlan<'a>>)
    ensures
        plan is Some == script_of(request.script) is Some,
        plan is Some ==> plans(*request, script_of(request.script)->0, plan->0),
        plan is Some ==> plan->0.arguments@.len() == 7 && plan->0.arguments@[6]@
            == request.script->0@,
{
    let script = match request.script {
        Some(script) => if is_blank(script) {
            return None;
        } else {
            script
        },
        None => {
            return None;
        },
    };
    let mut arguments: Vec<String> = Vec::new();
    arguments.push("--noprofile".to_owned());
    arguments.push("--norc".to_owned());
    arguments.push("-e".to_owned());
    arguments.push("-o".to_owned());
    arguments.push("pipefail".to_owned());
    arguments.push("-c".to_owned());
    arguments.push(script.to_owned());
    assert(arguments@.map_values(|argument: String| argument@) =~= shell_arguments(script@));
    assert(arguments@[6]@ == script@);
    Some(
        LaunchPlan {
            program: "/bin/bash",
            arguments,
            directory: request.directory,
            inherits_environment: false,
            environment: request.environment,
            stdin: Stream::Null,
            stdout: Stream::Piped,
            stderr: Stream::Piped,
            kill_on_drop: true,
            confinement: match request.phase {
                HookPhase::Setup => Confinement::ProcessGroup,
                HookPhase::Startup => Confinement::HostedIdentity,
            },
        },
    )
}

/// A reply of the host to a running hook.
#[derive(Debug, PartialEq, Eq)]
pub enum HookEvent {
    Logged(Result<(), CapsuleAllocationUnavailable>),
    /// The place of the process among those of the run.
    Spawned(Result<usize, CapsuleAllocationUnavailable>),
    Waited(Result<HookOutcome, CapsuleAllocationUnavailable>),
    OutputFinished(Result<(), CapsuleCleanupUnavailable>),
}

/// A running hook: what the host does next for it.
#[derive(Debug, PartialEq, Eq)]
pub enum HookRun {
    /// Log the announcement of the phase.
    Announce { phase: HookPhase },
    /// Start the shell by the plan of the request.
    Spawn { phase: HookPhase },
    Wait { phase: HookPhase, process: usize },
    /// Bring all output of the run to its end.
    FinishOutput { phase: HookPhase, outcome: HookOutcome },
    /// Log the report of the outcome.
    Report { phase: HookPhase, outcome: HookOutcome },
    Settled(Result<(), CapsuleAllocationUnavailable>),
}

/// The first step of a hook.  Without a script there is nothing to do, and
/// hooks exist on Linux only.
pub open spec fn hook_start(phase: HookPhase, script: Option<&str>, linux: bool) -> HookRun {
    if script_of(script) is None {
        HookRun::Settled(Ok(()))
    } else if !linux {
        HookRun::Settled(Err(phase_failure(phase)))
    } else {
        HookRun::Announce { phase }
    }
}

/// A hook after a reply.  A reply that does not answer its step changes
/// nothing.
pub open spec fn hook_next(step: HookRun, event: HookEvent) -> HookRun {
    match (step, event) {
        (HookRun::Announce { phase }, HookEvent::Logged(reply)) => match reply {
            Ok(_) => HookRun::Spawn { phase },
            Err(error) => HookRun::Settled(Err(error)),
        },
        (HookRun::Spawn { phase }, HookEvent::Spawned(reply)) => match reply {
            Ok(process) => HookRun::Wait { phase, process },
            Err(error) => HookRun::Settled(Err(error)),
        },
        (HookRun::Wait { phase, .. }, HookEvent::Waited(reply)) => match reply {
            Ok(outcome) => if phase == HookPhase::Setup {
                HookRun::FinishOutput { phase, outcome }
            } else {
                HookRun::Report { phase, outcome }
            },
            Err(error) => HookRun::Settled(Err(error)),
        },
        (
            HookRun::FinishOutput { phase, outcome },
            HookEvent::OutputFinished(reply),
        ) => match reply {
            Ok(_) => HookRun::Report { phase, outcome },
            Err(_) => HookRun::Settled(Err(phase_failure(phase))),
        },
        (HookRun::Report { phase, outcome }, HookEvent::Logged(reply)) => match reply {
            Ok(_) => HookRun::Settled(outcome_result(phase, outcome)),
            Err(error) => HookRun::Settled(Err(error)),
        },
        _ => step,
    }
}

/// A hook after these replies, in order.
pub open spec fn hook_run(start: HookRun, events: Seq<HookEvent>) -> HookRun
    decreases events.len(),
{
    if events.len() == 0 {
        start
    } else {
        hook_next(hook_run(start, events.drop_last()), events.last())
    }
}

impl HookRun {
    pub fn start(request: &HookRequest, linux: bool) -> (step: Self)
        ensures
            step == hook_start(request.phase, request.script, linux),
    {
        match request.script {
            None => HookRun::Settled(Ok(())),
            Some(script) => if is_blank(script) {
                HookRun::Settled(Ok(()))
            } else if !linux {
                HookRun::Settled(Err(request.phase.failure()))
            } else {
                HookRun::Announce { phase: request.phase }
            },
        }
    }

    /// Takes the reply to the current step.
    pub fn next(self, event: HookEvent) -> (step: Self)
        ensures
            step == hook_next(self, event),
    {
        match (self, event) {
            (HookRun::Announce { phase }, HookEvent::Logged(reply)) => match reply {
                Ok(()) => HookRun::Spawn { phase },
                Err(error) => HookRun::Settled(Err(error)),
            },
            (HookRun::Spawn { phase }, HookEvent::Spawned(reply)) => match reply {
                Ok(process) => HookRun::Wait { phase, process },
                Err(error) => HookRun::Settled(Err(error)),
            },
            (HookRun::Wait { phase, .. }, HookEvent::Waited(reply)) => match reply {
                Ok(outcome) => match phase {
                    HookPhase::Setup => HookRun::FinishOutput { phase, outcome },
                    HookPhase::Startup => HookRun::Report { phase, outcome },
                },
                Err(error) => HookRun::Settled(Err(error)),
            },
            (
                HookRun::FinishOutput { phase, outcome },
                HookEvent::OutputFinished(reply),
            ) => match reply {
                Ok(()) => HookRun::Report { phase, outcome },
                Err(_) => HookRun::Settled(Err(phase.failure())),
            },
            (HookRun::Report { phase, outcome }, HookEvent::Logged(reply)) => HookRun::Settled(
                report_outcome(phase, &outcome, reply),
            ),
            (step, _) => step,
        }
    }
}

/// The reply says that the shell has ended in this way.
pub open spec fn shell_ends(phase: HookPhase, outcome: HookOutcome) -> spec_fn(
    Seq<HookEvent>,
    HookEvent,
) -> bool {
    |before: Seq<HookEvent>, event: HookEvent|
        {
            &&& hook_run(HookRun::Announce { phase }, before) is Wait
            &&& event == HookEvent::Waited(Ok(outcome))
        }
}

/// Among these replies the shell was reported to have ended in this way.
pub open spec fn shell_ended(phase: HookPhase, events: Seq<HookEvent>, outcome: HookOutcome) -> bool {
    among(events, shell_ends(phase, outcome))
}

/// The reply says that the output of the run has ended.
pub open spec fn output_ends(phase: HookPhase) -> spec_fn(Seq<HookEvent>, HookEvent) -> bool {
    |before: Seq<HookEvent>, event: HookEvent|
        {
            &&& hook_run(HookRun::Announce { phase }, before) is FinishOutput
            &&& event is OutputFinished && event->OutputFinished_0 is Ok
        }
}

/// Among these replies the output of the run was reported to have ended.
pub open spec fn output_ended(phase: HookPhase, events: Seq<HookEvent>) -> bool {
    among(events, output_ends(phase))
}

/// A hook reports only what its shell came to, and a setup hook only once all
/// output has ended.  It succeeds only if its shell exited with success.
pub proof fn hooks_succeed_only_with_their_shell(phase: HookPhase, events: Seq<HookEvent>)
    ensures
        match hook_run(HookRun::Announce { phase }, events) {
            HookRun::FinishOutput { phase: of, outcome } => {
                &&& of == phase
                &&& phase == HookPhase::Setup
                &&& shell_ended(phase, events, outcome)
            },
            HookRun::Report { phase: of, outcome } => {
                &&& of == phase
                &&& shell_ended(phase, events, outcome)
                &&& phase == HookPhase::Setup ==> output_ended(phase, events)
            },
            HookRun::Settled(Ok(_)) => {
                &&& exists|outcome: HookOutcome|
                    succeeded(outcome) && #[trigger] shell_ended(phase, events, outcome)
                &&& phase == HookPhase::Setup ==> output_ended(phase, events)
            },
            HookRun::Announce { phase: of } => of == phase,
            HookRun::Spawn { phase: of } => of == phase,
            HookRun::Wait { phase: of, .. } => of == phase,
            _ => true,
        },
    decreases events.len(),
{
    if events.len() > 0 {
        let front = events.drop_last();
        hooks_succeed_only_with_their_shell(phase, front);
        found_before_or_last(events, output_ends(phase));
        match hook_run(HookRun::Announce { phase }, front) {
            HookRun::Wait { .. } => {
                if let HookEvent::Waited(Ok(outcome)) = events.last() {
                    found_before_or_last(events, shell_ends(phase, outcome));
                }
            },
            HookRun::FinishOutput { outcome, .. } => {
                found_before_or_last(events, shell_ends(phase, outcome));
            },
            HookRun::Report { outcome, .. } => {
                found_before_or_last(events, shell_ends(phase, outcome));
                assert(shell_ended(phase, events, outcome));
            },
            HookRun::Settled(Ok(_)) => {
                let outcome = choose|outcome: HookOutcome|
                    succeeded(outcome) && #[trigger] shell_ended(phase, front, outcome);
                found_before_or_last(events, shell_ends(phase, outcome));
                assert(shell_ended(phase, events, outcome));
            },
            _ => {},
        }
    }
}

/// A hook that gets under way has a plan for its shell, and one that has no
/// plan is done at once.
pub proof fn hooks_under_way_have_a_script(phase: HookPhase, script: Option<&str>, linux: bool)
    ensures
        hook_start(phase, script, linux) is Announce ==> script_of(script) is Some && linux,
        script_of(script) is None ==> hook_start(phase, script, linux) is Settled
            && hook_start(phase, script, linux)->Settled_0 is Ok,
{
}

} // verus!
