use std::collections::BTreeMap;
use std::path::Path;
use zeroshot::environment::directories::{
    prepare_environment, prepare_environment_elsewhere, search_path, search_path_with,
    tools_directory, PrepareEnvironment, PrepareEvent, ToolsDirectory, ToolsStep, SETUP_HOME,
};
use zeroshot::environment::hook::{
    announcement, launch_plan, report_line, report_outcome, Confinement, HookEvent, HookOutcome,
    HookPhase, HookRequest, HookRun, Stream, HOOK_TIMEOUT_SECONDS,
};
use zeroshot::environment::output::{SafeLine, MAX_OUTPUT_BYTES};
use zeroshot::environment::processes::{
    CleanupStep, EnvironmentProcesses, OutputEvent, OutputStep, Pipes, SpawnEvent, SpawnStep,
    SpawnedHook, WaitEvent, WaitStep, OUTPUT_DEADLINE_SECONDS,
};
use zeroshot::failure::{CapsuleAllocationUnavailable, CapsuleCleanupUnavailable};

fn exited(success: bool, status: &str) -> HookOutcome {
    HookOutcome::Exited {
        success,
        status: status.to_owned(),
    }
}

fn success() -> HookOutcome {
    exited(true, "exit status: 0")
}

fn failure() -> HookOutcome {
    exited(false, "exit status: 3")
}

fn start(phase: HookPhase, script: Option<&str>, linux: bool) -> HookRun {
    let environment = BTreeMap::new();
    let request = HookRequest {
        phase,
        script,
        directory: b"/run",
        environment: &environment,
        redactions: &[],
    };
    EnvironmentProcesses::default().run(&request, linux)
}

fn spawn(
    processes: &mut EnvironmentProcesses,
    phase: HookPhase,
    step: SpawnStep,
    event: SpawnEvent,
) -> SpawnStep {
    let environment = BTreeMap::new();
    let redactions = vec![format!("{} token", phase.name())];
    let request = HookRequest {
        phase,
        script: Some("true"),
        directory: b"/run",
        environment: &environment,
        redactions: &redactions,
    };
    processes.spawn(&request, step, event)
}

/// Starts a shell with both pipes and gives the places that it got.
fn spawned(processes: &mut EnvironmentProcesses, phase: HookPhase) -> SpawnedHook {
    let mut step = SpawnStep::start();
    loop {
        let event = match step {
            SpawnStep::Register => SpawnEvent::Registered(true),
            SpawnStep::PrepareDomain => SpawnEvent::DomainPrepared(true),
            SpawnStep::Launch => SpawnEvent::Launched(Some(Pipes {
                stdout: true,
                stderr: true,
            })),
            SpawnStep::Settled(result) => return result.unwrap(),
        };
        step = spawn(processes, phase, step, event);
    }
}

#[test]
fn phases_have_names_and_failures() {
    assert_eq!(HookPhase::Setup.name(), "setup");
    assert_eq!(HookPhase::Startup.name(), "startup");
    assert_eq!(
        HookPhase::Setup.failure(),
        CapsuleAllocationUnavailable::EnvironmentSetup
    );
    assert_eq!(
        HookPhase::Startup.failure(),
        CapsuleAllocationUnavailable::EnvironmentStartup
    );
    assert_eq!(HOOK_TIMEOUT_SECONDS, 900);
    assert_eq!(OUTPUT_DEADLINE_SECONDS, 5);
}

#[test]
fn the_log_tells_how_a_hook_went() {
    assert_eq!(announcement(HookPhase::Setup), "Environment setup started");
    assert_eq!(
        report_line(HookPhase::Startup, &success()),
        "Environment startup completed"
    );
    assert_eq!(
        report_line(HookPhase::Setup, &failure()),
        "Environment setup failed: exit status: 3"
    );
    assert_eq!(
        report_line(HookPhase::Setup, &HookOutcome::Unavailable),
        "Environment setup process became unavailable"
    );
    assert_eq!(
        report_line(HookPhase::Startup, &HookOutcome::Timeout),
        "Environment startup exceeded the 15 minute timeout"
    );
}

#[test]
fn only_an_exit_with_success_is_a_success() {
    assert!(success().success());
    assert!(!failure().success());
    assert!(!HookOutcome::Unavailable.success());
    assert!(!HookOutcome::Timeout.success());
    assert_eq!(report_outcome(HookPhase::Setup, &success(), Ok(())), Ok(()));
    assert_eq!(
        report_outcome(HookPhase::Setup, &HookOutcome::Timeout, Ok(())),
        Err(CapsuleAllocationUnavailable::EnvironmentSetup)
    );
    assert_eq!(
        report_outcome(
            HookPhase::Startup,
            &success(),
            Err(CapsuleAllocationUnavailable::Runtime)
        ),
        Err(CapsuleAllocationUnavailable::Runtime)
    );
}

#[test]
fn a_hook_without_a_script_is_done_everywhere() {
    for script in [None, Some(""), Some(" \n\t")] {
        for linux in [true, false] {
            let step = start(HookPhase::Setup, script, linux);
            assert_eq!(step, HookRun::Settled(Ok(())));
        }
    }
}

#[test]
fn hooks_exist_on_linux_only() {
    assert_eq!(
        start(HookPhase::Startup, Some("true"), false),
        HookRun::Settled(Err(CapsuleAllocationUnavailable::EnvironmentStartup))
    );
    assert_eq!(
        start(HookPhase::Startup, Some("true"), true),
        HookRun::Announce {
            phase: HookPhase::Startup
        }
    );
}

#[test]
fn a_shell_is_started_by_its_plan() {
    let mut environment = BTreeMap::new();
    environment.insert("HOME".to_owned(), "/home/run".to_owned());
    for (phase, confinement) in [
        (HookPhase::Setup, Confinement::ProcessGroup),
        (HookPhase::Startup, Confinement::HostedIdentity),
    ] {
        let request = HookRequest {
            phase,
            script: Some("make deps"),
            directory: b"/run/work",
            environment: &environment,
            redactions: &[],
        };
        let plan = launch_plan(&request).unwrap();
        assert_eq!(plan.program, "/bin/bash");
        assert_eq!(
            plan.arguments,
            ["--noprofile", "--norc", "-e", "-o", "pipefail", "-c", "make deps"]
        );
        assert_eq!(plan.directory, b"/run/work");
        assert!(!plan.inherits_environment);
        assert_eq!(plan.environment, &environment);
        assert_eq!(plan.stdin, Stream::Null);
        assert_eq!(plan.stdout, Stream::Piped);
        assert_eq!(plan.stderr, Stream::Piped);
        assert!(plan.kill_on_drop);
        assert_eq!(plan.confinement, confinement);
        for script in [None, Some(""), Some(" \n")] {
            let request = HookRequest { script, ..request };
            assert!(launch_plan(&request).is_none());
        }
    }
}

#[test]
fn a_setup_hook_ends_its_output_before_its_report() {
    let phase = HookPhase::Setup;
    let mut step = start(phase, Some("true"), true);
    step = step.next(HookEvent::Logged(Ok(())));
    assert_eq!(step, HookRun::Spawn { phase });
    step = step.next(HookEvent::Spawned(Ok(4)));
    assert_eq!(step, HookRun::Wait { phase, process: 4 });
    step = step.next(HookEvent::Logged(Ok(())));
    assert_eq!(step, HookRun::Wait { phase, process: 4 });
    step = step.next(HookEvent::Waited(Ok(success())));
    assert_eq!(
        step,
        HookRun::FinishOutput {
            phase,
            outcome: success()
        }
    );
    step = step.next(HookEvent::OutputFinished(Ok(())));
    assert_eq!(
        step,
        HookRun::Report {
            phase,
            outcome: success()
        }
    );
    step = step.next(HookEvent::Logged(Ok(())));
    assert_eq!(step, HookRun::Settled(Ok(())));
}

#[test]
fn a_startup_hook_leaves_its_output_open() {
    let phase = HookPhase::Startup;
    let mut step = start(phase, Some("serve &"), true);
    step = step.next(HookEvent::Logged(Ok(())));
    step = step.next(HookEvent::Spawned(Ok(0)));
    step = step.next(HookEvent::Waited(Ok(failure())));
    assert_eq!(
        step,
        HookRun::Report {
            phase,
            outcome: failure()
        }
    );
    step = step.next(HookEvent::Logged(Ok(())));
    assert_eq!(
        step,
        HookRun::Settled(Err(CapsuleAllocationUnavailable::EnvironmentStartup))
    );
}

#[test]
fn a_hook_ends_with_the_first_thing_that_fails() {
    let phase = HookPhase::Setup;
    let runtime = CapsuleAllocationUnavailable::Runtime;
    let lost = HookRun::Settled(Err(runtime));
    let announced = || start(phase, Some("true"), true);
    assert_eq!(announced().next(HookEvent::Logged(Err(runtime))), lost);
    let spawn = || announced().next(HookEvent::Logged(Ok(())));
    assert_eq!(spawn().next(HookEvent::Spawned(Err(runtime))), lost);
    let wait = || spawn().next(HookEvent::Spawned(Ok(0)));
    assert_eq!(wait().next(HookEvent::Waited(Err(runtime))), lost);
    let output = || wait().next(HookEvent::Waited(Ok(success())));
    assert_eq!(
        output().next(HookEvent::OutputFinished(Err(CapsuleCleanupUnavailable))),
        HookRun::Settled(Err(CapsuleAllocationUnavailable::EnvironmentSetup))
    );
    let report = output().next(HookEvent::OutputFinished(Ok(())));
    assert_eq!(report.next(HookEvent::Logged(Err(runtime))), lost);
}

#[test]
fn a_started_shell_is_registered_with_its_pipes() {
    let mut processes = EnvironmentProcesses::default();
    let first = spawned(&mut processes, HookPhase::Setup);
    let second = spawned(&mut processes, HookPhase::Startup);
    assert_eq!(
        first,
        SpawnedHook {
            process: 0,
            stdout: Some(0),
            stderr: Some(1)
        }
    );
    assert_eq!(
        second,
        SpawnedHook {
            process: 1,
            stdout: Some(2),
            stderr: Some(3)
        }
    );
    let only_stderr = SpawnEvent::Launched(Some(Pipes {
        stdout: false,
        stderr: true,
    }));
    assert_eq!(
        spawn(&mut processes, HookPhase::Setup, SpawnStep::Launch, only_stderr),
        SpawnStep::Settled(Ok(SpawnedHook {
            process: 2,
            stdout: None,
            stderr: Some(4)
        }))
    );
}

#[test]
fn only_a_startup_shell_needs_its_domain() {
    let mut processes = EnvironmentProcesses::default();
    let done = SpawnEvent::Registered(true);
    assert_eq!(
        spawn(&mut processes, HookPhase::Setup, SpawnStep::Register, done),
        SpawnStep::Launch
    );
    assert_eq!(
        spawn(&mut processes, HookPhase::Startup, SpawnStep::Register, done),
        SpawnStep::PrepareDomain
    );
}

#[test]
fn a_shell_that_does_not_start_leaves_no_trace() {
    let failed = SpawnStep::Settled(Err(CapsuleAllocationUnavailable::EnvironmentStartup));
    let mut processes = EnvironmentProcesses::default();
    for (step, event) in [
        (SpawnStep::Register, SpawnEvent::Registered(false)),
        (SpawnStep::PrepareDomain, SpawnEvent::DomainPrepared(false)),
        (SpawnStep::Launch, SpawnEvent::Launched(None)),
    ] {
        let settled = spawn(&mut processes, HookPhase::Startup, step, event);
        assert_eq!(settled, failed);
    }
    assert_eq!(processes.cleanup(), CleanupStep::Settled(Ok(())));
    assert_eq!(processes.finish_output(), OutputStep::Settled(Ok(())));
    assert_eq!(processes.redactions(0), None);
    assert_eq!(processes.line(0, SafeLine::Oversized), None);
}

#[test]
fn both_pipes_of_a_hook_share_its_budget_and_no_other() {
    let mut processes = EnvironmentProcesses::default();
    let first = spawned(&mut processes, HookPhase::Setup);
    let second = spawned(&mut processes, HookPhase::Startup);
    let (stdout, stderr) = (first.stdout.unwrap(), first.stderr.unwrap());
    let other = second.stderr.unwrap();
    let setup = vec!["setup token".to_owned()];
    assert_eq!(processes.redactions(stdout), Some(&setup));
    assert_eq!(processes.redactions(stderr), Some(&setup));
    assert_eq!(
        processes.redactions(other),
        Some(&vec!["startup token".to_owned()])
    );
    let half = SafeLine::Text("x".repeat(MAX_OUTPUT_BYTES / 2 - 8));
    let entry = processes.line(stdout, half).unwrap();
    assert_eq!(entry.len(), MAX_OUTPUT_BYTES / 2);
    // What the one pipe has used is gone for the other.
    let half = SafeLine::Text("y".repeat(MAX_OUTPUT_BYTES / 2 - 8));
    assert_eq!(
        processes.line(stderr, half).as_deref(),
        Some("[setup] [output limit reached; remaining output is drained]")
    );
    assert_eq!(processes.line(stdout, SafeLine::Oversized), None);
    assert_eq!(processes.line(stderr, SafeLine::Oversized), None);
    assert_eq!(
        processes.line(other, SafeLine::Oversized).as_deref(),
        Some("[startup] [oversized output line omitted]")
    );
}

#[test]
fn a_setup_shell_is_always_terminated() {
    let phase = HookPhase::Setup;
    let mut processes = EnvironmentProcesses::default();
    let process = spawned(&mut processes, phase).process;
    let step = processes.wait(WaitStep::start(phase, process), WaitEvent::Ended(success()));
    assert_eq!(
        step,
        WaitStep::Terminate {
            phase,
            process,
            outcome: success()
        }
    );
    let step = processes.wait(step, WaitEvent::Terminated(true));
    assert_eq!(step, WaitStep::Settled(Ok(success())));
    assert_eq!(processes.cleanup(), CleanupStep::Settled(Ok(())));
}

#[test]
fn services_of_a_startup_shell_live_on() {
    let phase = HookPhase::Startup;
    let mut processes = EnvironmentProcesses::default();
    let process = spawned(&mut processes, phase).process;
    let step = processes.wait(WaitStep::start(phase, process), WaitEvent::Ended(success()));
    assert_eq!(step, WaitStep::Settled(Ok(success())));
    assert_eq!(processes.cleanup(), CleanupStep::Settled(Ok(())));
}

#[test]
fn a_failed_startup_shell_is_terminated() {
    let phase = HookPhase::Startup;
    for outcome in [failure(), HookOutcome::Unavailable, HookOutcome::Timeout] {
        let mut processes = EnvironmentProcesses::default();
        let process = spawned(&mut processes, phase).process;
        let step = processes.wait(WaitStep::start(phase, process), WaitEvent::Ended(outcome));
        assert!(matches!(step, WaitStep::Terminate { .. }));
        let step = processes.wait(step, WaitEvent::Terminated(false));
        assert_eq!(
            step,
            WaitStep::Settled(Err(CapsuleAllocationUnavailable::EnvironmentStartup))
        );
        // It is still there for a cleanup.
        assert_eq!(
            processes.cleanup(),
            CleanupStep::Terminate { process: 0, end: 1 }
        );
    }
}

#[test]
fn a_cleanup_resumes_at_the_tree_that_would_not_end() {
    let mut processes = EnvironmentProcesses::default();
    for _ in 0..3 {
        spawned(&mut processes, HookPhase::Setup);
    }
    let mut step = processes.cleanup();
    assert_eq!(step, CleanupStep::Terminate { process: 0, end: 3 });
    step = processes.terminated(step, true);
    assert_eq!(step, CleanupStep::Terminate { process: 1, end: 3 });
    step = processes.terminated(step, false);
    assert_eq!(step, CleanupStep::Settled(Err(CapsuleCleanupUnavailable)));
    step = processes.cleanup();
    assert_eq!(step, CleanupStep::Terminate { process: 1, end: 3 });
    step = processes.terminated(step, true);
    step = processes.terminated(step, true);
    assert_eq!(step, CleanupStep::Settled(Ok(())));
    assert_eq!(processes.cleanup(), CleanupStep::Settled(Ok(())));
}

#[test]
fn a_cleanup_sees_to_the_processes_it_began_with() {
    let mut processes = EnvironmentProcesses::default();
    spawned(&mut processes, HookPhase::Setup);
    let step = processes.cleanup();
    spawned(&mut processes, HookPhase::Startup);
    assert_eq!(processes.terminated(step, true), CleanupStep::Settled(Ok(())));
    assert_eq!(
        processes.cleanup(),
        CleanupStep::Terminate { process: 1, end: 2 }
    );
}

#[test]
fn output_ends_once_every_task_has() {
    let mut processes = EnvironmentProcesses::default();
    spawned(&mut processes, HookPhase::Setup);
    let mut step = processes.finish_output();
    assert_eq!(
        step,
        OutputStep::Await {
            task: 0,
            end: 2,
            complete: true,
            expired: false
        }
    );
    step = processes.output_reply(step, OutputEvent::Ended(true));
    step = processes.output_reply(step, OutputEvent::Ended(true));
    assert_eq!(step, OutputStep::Settled(Ok(())));
    assert_eq!(processes.finish_output(), OutputStep::Settled(Ok(())));
}

#[test]
fn output_that_is_late_is_aborted_and_reported() {
    let mut processes = EnvironmentProcesses::default();
    spawned(&mut processes, HookPhase::Setup);
    let mut step = processes.finish_output();
    step = processes.output_reply(step, OutputEvent::DeadlineElapsed);
    assert_eq!(step, OutputStep::Abort { task: 0, end: 2 });
    // The task is still pending until it is gone.
    assert_eq!(
        processes.finish_output(),
        OutputStep::Await {
            task: 0,
            end: 2,
            complete: true,
            expired: false
        }
    );
    step = processes.output_reply(step, OutputEvent::Aborted);
    assert_eq!(
        step,
        OutputStep::Await {
            task: 1,
            end: 2,
            complete: false,
            expired: true
        }
    );
    step = processes.output_reply(step, OutputEvent::Ended(true));
    assert_eq!(step, OutputStep::Settled(Err(CapsuleCleanupUnavailable)));
    assert_eq!(processes.finish_output(), OutputStep::Settled(Ok(())));
}

#[test]
fn output_that_was_not_logged_is_reported() {
    let mut processes = EnvironmentProcesses::default();
    spawned(&mut processes, HookPhase::Setup);
    let mut step = processes.finish_output();
    step = processes.output_reply(step, OutputEvent::Ended(false));
    step = processes.output_reply(step, OutputEvent::Ended(true));
    assert_eq!(step, OutputStep::Settled(Err(CapsuleCleanupUnavailable)));
}

#[test]
fn tools_come_first_on_the_search_path() {
    assert_eq!(tools_directory(b"/run"), b"/run/tools");
    assert_eq!(
        search_path(b"/run/r\xc3\xbcn", "/usr/bin:/bin"),
        "/run/r\u{fc}n/tools/bin:/usr/bin:/bin"
    );
    assert_eq!(search_path(b"/run/", ""), "/run/tools/bin:");
    assert_eq!(
        search_path(b"/run/\xff", "/bin"),
        "/run/\u{fffd}/tools/bin:/bin"
    );
    let root = Path::new("/srv/zeroshot/run-1");
    assert_eq!(
        search_path(root.to_str().unwrap().as_bytes(), "/bin"),
        format!("{}:/bin", root.join("tools").join("bin").display())
    );
}

#[test]
fn tools_are_created_and_handed_over_in_order() {
    let mut steps = Vec::new();
    let mut step = ToolsStep::prepare_tools();
    while !matches!(step, ToolsStep::Settled(_)) {
        steps.push(step);
        step = step.next(true, true, true);
    }
    assert_eq!(
        steps,
        vec![
            ToolsStep::Create(ToolsDirectory::Tools),
            ToolsStep::HandOver(ToolsDirectory::Tools),
            ToolsStep::Create(ToolsDirectory::Bin),
            ToolsStep::HandOver(ToolsDirectory::Bin),
        ]
    );
    assert_eq!(step, ToolsStep::Settled(Ok(())));
    assert_eq!(ToolsDirectory::Tools.path(b"/run"), b"/run/tools");
    assert_eq!(ToolsDirectory::Bin.path(b"/run"), b"/run/tools/bin");
}

#[test]
fn tools_without_an_owner_are_only_created() {
    for (unix, identity) in [(true, false), (false, true), (false, false)] {
        let step = ToolsStep::prepare_tools().next(unix, identity, true);
        assert_eq!(step, ToolsStep::Create(ToolsDirectory::Bin));
        assert_eq!(step.next(unix, identity, true), ToolsStep::Settled(Ok(())));
        assert_eq!(
            step.next(unix, identity, false),
            ToolsStep::Settled(Err(CapsuleAllocationUnavailable::Runtime))
        );
    }
}

#[test]
fn names_lead_from_the_root_of_a_run_to_its_tools() {
    for directory in [ToolsDirectory::Tools, ToolsDirectory::Bin] {
        let mut path = Path::new("/run").to_path_buf();
        for name in directory.names() {
            path = path.join(name);
        }
        assert_eq!(directory.path(b"/run"), path.to_str().unwrap().as_bytes());
    }
    assert_eq!(ToolsDirectory::Bin.names(), vec!["tools", "bin"]);
    assert_eq!(search_path_with("D:\\run\\tools\\bin", "C:\\bin"), "D:\\run\\tools\\bin:C:\\bin");
}

#[test]
fn on_another_platform_nothing_changes_its_owner() {
    let mut step = prepare_environment_elsewhere("C:\\home\\setup-home", HookPhase::Setup);
    for _ in 0..2 {
        assert!(matches!(
            step,
            PrepareEnvironment::Tools {
                unix: false,
                step: ToolsStep::Create(_),
                ..
            }
        ));
        step = step.next(PrepareEvent::Done(true));
    }
    assert_eq!(
        step,
        PrepareEnvironment::CreateHome {
            home: "C:\\home\\setup-home"
        }
    );
    assert_eq!(SETUP_HOME, "setup-home");
}

#[test]
fn a_setup_hook_gets_a_home_of_its_own() {
    let mut step = prepare_environment(b"/home/run", HookPhase::Setup);
    for _ in 0..4 {
        assert!(matches!(step, PrepareEnvironment::Tools { .. }));
        step = step.next(PrepareEvent::Done(true));
    }
    assert_eq!(
        step,
        PrepareEnvironment::CreateHome {
            home: b"/home/run/setup-home".to_vec()
        }
    );
    step = step.next(PrepareEvent::Done(true));
    assert_eq!(
        step,
        PrepareEnvironment::Settled(Ok(b"/home/run/setup-home".to_vec()))
    );
}

#[test]
fn a_startup_hook_gets_the_home_of_the_identity() {
    let mut step = prepare_environment(b"/home/run", HookPhase::Startup);
    for _ in 0..4 {
        step = step.next(PrepareEvent::Done(true));
    }
    assert_eq!(step, PrepareEnvironment::PrepareHome);
    step = step.next(PrepareEvent::HomePrepared(Some(b"/home/run/u1000".to_vec())));
    assert_eq!(
        step,
        PrepareEnvironment::Settled(Ok(b"/home/run/u1000".to_vec()))
    );
}

#[test]
fn an_environment_that_cannot_be_prepared_is_no_runtime() {
    let failed = || PrepareEnvironment::Settled(Err(CapsuleAllocationUnavailable::Runtime));
    for done in 0..4 {
        let mut step = prepare_environment(b"/home/run", HookPhase::Setup);
        for _ in 0..done {
            step = step.next(PrepareEvent::Done(true));
        }
        assert_eq!(step.next(PrepareEvent::Done(false)), failed());
    }
    let setup = PrepareEnvironment::CreateHome {
        home: b"/home".to_vec(),
    };
    assert_eq!(setup.next(PrepareEvent::Done(false)), failed());
    assert_eq!(
        PrepareEnvironment::PrepareHome.next(PrepareEvent::HomePrepared(None)),
        failed()
    );
}
