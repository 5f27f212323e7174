//! The processes and output tasks of a run's environment.
//!
//! A process is registered before anyone waits on it, and stays active until
//! its process tree is known to be empty or its services belong to the run.
//! It has one output for all of its pipes.  An output task drains one pipe into
//! the output of its process, and stays pending until it has ended.
use crate::environment::hook::{
    hook_start, phase_failure, succeeded, HookOutcome, HookPhase, HookRequest, HookRun,
};
use crate::environment::output::{
    counting, entry_of, output_of, texts, HookOutput, OutputView, SafeLine,
};
use crate::failure::{CapsuleAllocationUnavailable, CapsuleCleanupUnavailable};
use vstd::prelude::*;

verus! {

/// The seconds that all output tasks of a run together have to end.
pub const OUTPUT_DEADLINE_SECONDS: u64 = 5;

/// Which processes are active, what each has for an output, which output tasks
/// are pending, and into the output of which process each drains its pipe.
#[verifier::ext_equal]
pub struct ProcessesView {
    pub active: Seq<bool>,
    pub outputs: Seq<OutputView>,
    pub pending: Seq<bool>,
    pub drains: Seq<usize>,
}

/// Every process has an output, and every output task drains into that of a
/// process.
pub open spec fn sound(state: ProcessesView) -> bool {
    &&& state.outputs.len() == state.active.len()
    &&& state.drains.len() == state.pending.len()
    &&& forall|i: int| 0 <= i < state.drains.len() ==> #[trigger] state.drains[i] < state.outputs.len()
}

/// The pipes that a started shell came with.
#[derive(Clone, Copy, Debug, PartialEq, Eq, Structural)]
pub struct Pipes {
    pub stdout: bool,
    pub stderr: bool,
}

/// The places that a started shell and its output tasks were given.
#[derive(Clone, Copy, Debug, PartialEq, Eq)]
pub struct SpawnedHook {
    pub process: usize,
    pub stdout: Option<usize>,
    pub stderr: Option<usize>,
}

/// A shell that is being started: what the host does next for it.
#[derive(Clone, Copy, Debug, PartialEq, Eq)]
pub enum SpawnStep {
    /// Register a process tree.
    Register,
    /// Prepare the domain of the hosted identity.
    PrepareDomain,
    /// Start the shell by the plan of its request.
    Launch,
    Settled(Result<SpawnedHook, CapsuleAllocationUnavailable>),
}

impl SpawnStep {
    /// The first step of a shell that is being started.
    pub fn start() -> (step: Self)
        ensures
            step == SpawnStep::Register,
    {
        SpawnStep::Register
    }
}

/// A reply of the host to a shell that is being started.
#[derive(Clone, Copy, Debug, PartialEq, Eq)]
pub enum SpawnEvent {
    Registered(bool),
    DomainPrepared(bool),
    /// The pipes of the shell, if it could be started.
    Launched(Option<Pipes>),
}

/// The state with a started shell in it: a process of its own, with an output
/// of its own, and one output task for each of its pipes.
pub open spec fn registered(
    state: ProcessesView,
    request: HookRequest,
    pipes: Pipes,
) -> ProcessesView {
    let tasks: nat = if pipes.stdout && pipes.stderr {
        2
    } else if pipes.stdout || pipes.stderr {
        1
    } else {
        0
    };
    ProcessesView {
        active: state.active.push(true),
        outputs: state.outputs.push(output_of(request)),
        pending: state.pending + Seq::new(tasks, |i: int| true),
        drains: state.drains + Seq::new(tasks, |i: int| state.outputs.len() as usize),
    }
}

pub open spec fn spawn_next(
    state: ProcessesView,
    request: HookRequest,
    step: SpawnStep,
    event: SpawnEvent,
) -> (ProcessesView, SpawnStep) {
    let failed = SpawnStep::Settled(Err(phase_failure(request.phase)));
    match (step, event) {
        (SpawnStep::Register, SpawnEvent::Registered(done)) => (
            state,
            if !done {
                failed
            } else if request.phase == HookPhase::Startup {
                SpawnStep::PrepareDomain
            } else {
                SpawnStep::Launch
            },
        ),
        (SpawnStep::PrepareDomain, SpawnEvent::DomainPrepared(done)) => (
            state,
            if done {
                SpawnStep::Launch
            } else {
                failed
            },
        ),
        (SpawnStep::Launch, SpawnEvent::Launched(pipes)) => match pipes {
            None => (state, failed),
            Some(pipes) => {
                let first = state.pending.len();
                let hook = SpawnedHook {
                    process: state.active.len() as usize,
                    stdout: if pipes.stdout {
                        Some(first as usize)
                    } else {
                        None
                    },
                    stderr: if pipes.stderr && pipes.stdout {
                        Some((first + 1) as usize)
                    } else if pipes.stderr {
                        Some(first as usize)
                    } else {
                        None
                    },
                };
                (registered(state, request, pipes), SpawnStep::Settled(Ok(hook)))
            },
        },
        _ => (state, step),
    }
}

/// The process into whose output a task drains its pipe.
pub open spec fn drains_into(state: ProcessesView, task: int) -> Option<int> {
    if 0 <= task < state.drains.len() && state.drains[task] < state.outputs.len() {
        Some(state.drains[task] as int)
    } else {
        None
    }
}

/// The texts that are redacted from the lines of an output task.
pub open spec fn redactions_of(state: ProcessesView, task: int) -> Option<Seq<Seq<char>>> {
    match drains_into(state, task) {
        Some(process) => Some(state.outputs[process].redacted),
        None => None,
    }
}

/// The state once an output task has handed in a line, and what is logged of
/// the line.
pub open spec fn line_next(state: ProcessesView, task: int, line: SafeLine) -> (
    ProcessesView,
    Option<Seq<char>>,
) {
    match drains_into(state, task) {
        Some(process) => {
            let output = state.outputs[process];
            (
                ProcessesView {
                    outputs: state.outputs.update(process, counting(output, line)),
                    ..state
                },
                entry_of(output, line),
            )
        },
        None => (state, None),
    }
}

/// A shell that is being waited for: what the host does next for it.
#[derive(Debug, PartialEq, Eq)]
pub enum WaitStep {
    /// Wait for the shell, but no longer than a hook may take.
    Wait { phase: HookPhase, process: usize },
    /// Terminate the process tree of the shell.
    Terminate { phase: HookPhase, process: usize, outcome: HookOutcome },
    Settled(Result<HookOutcome, CapsuleAllocationUnavailable>),
}

impl WaitStep {
    /// The first step of a wait for a process.
    pub fn start(phase: HookPhase, process: usize) -> (step: Self)
        ensures
            step == (WaitStep::Wait { phase, process }),
    {
        WaitStep::Wait { phase, process }
    }
}

/// A reply of the host to a shell that is being waited for.
#[derive(Debug, PartialEq, Eq)]
pub enum WaitEvent {
    Ended(HookOutcome),
    /// Whether the termination proved that the process tree is empty.
    Terminated(bool),
}

/// The state with one process no longer active.
pub open spec fn retired(state: ProcessesView, process: int) -> ProcessesView {
    if 0 <= process < state.active.len() {
        ProcessesView { active: state.active.update(process, false), ..state }
    } else {
        state
    }
}

/// A process tree is terminated after every setup hook and after a startup
/// hook that failed.  Services of a startup hook live on.
pub open spec fn wait_next(
    state: ProcessesView,
    step: WaitStep,
    event: WaitEvent,
) -> (ProcessesView, WaitStep) {
    match (step, event) {
        (WaitStep::Wait { phase, process }, WaitEvent::Ended(outcome)) => if phase
            == HookPhase::Setup || !succeeded(outcome) {
            (state, WaitStep::Terminate { phase, process, outcome })
        } else {
            (retired(state, process as int), WaitStep::Settled(Ok(outcome)))
        },
        (
            WaitStep::Terminate { phase, process, outcome },
            WaitEvent::Terminated(proven),
        ) => if proven {
            (retired(state, process as int), WaitStep::Settled(Ok(outcome)))
        } else {
            (state, WaitStep::Settled(Err(phase_failure(phase))))
        },
        _ => (state, step),
    }
}

/// A cleanup of all processes: what the host does next for it.
#[derive(Clone, Copy, Debug, PartialEq, Eq)]
pub enum CleanupStep {
    /// Terminate the process tree of a process; those before `end` are in the
    /// cleanup.
    Terminate { process: usize, end: usize },
    Settled(Result<(), CapsuleCleanupUnavailable>),
}

/// The cleanup once every process before `from` has been seen to.
pub open spec fn cleanup_from(active: Seq<bool>, from: int, end: int) -> CleanupStep
    decreases end - from,
{
    if from >= end || from >= active.len() {
        CleanupStep::Settled(Ok(()))
    } else if 0 <= from && active[from] {
        CleanupStep::Terminate { process: from as usize, end: end as usize }
    } else {
        cleanup_from(active, from + 1, end)
    }
}

/// The cleanup after a termination that did or did not prove a process tree
/// to be empty.
pub open spec fn cleanup_next(
    state: ProcessesView,
    step: CleanupStep,
    proven: bool,
) -> (ProcessesView, CleanupStep) {
    match step {
        CleanupStep::Terminate { process, end } => if proven {
            let after = retired(state, process as int);
            (after, cleanup_from(after.active, process + 1, end as int))
        } else {
            (state, CleanupStep::Settled(Err(CapsuleCleanupUnavailable)))
        },
        CleanupStep::Settled(_) => (state, step),
    }
}

/// An end of all output tasks: what the host does next for it.
#[derive(Clone, Copy, Debug, PartialEq, Eq)]
pub enum OutputStep {
    /// Wait for a task until the deadline that all tasks share; those before
    /// `end` are waited for.  Where the deadline has expired, only look whether
    /// the task has ended.
    Await { task: usize, end: usize, complete: bool, expired: bool },
    /// Abort a task and wait until it is gone.
    Abort { task: usize, end: usize },
    Settled(Result<(), CapsuleCleanupUnavailable>),
}

/// A reply of the host to an end of output.
#[derive(Clone, Copy, Debug, PartialEq, Eq, Structural)]
pub enum OutputEvent {
    /// The task ended; whether all its output was logged.
    Ended(bool),
    DeadlineElapsed,
    Aborted,
}

/// The end of output once every task before `from` has been seen to.
pub open spec fn output_from(
    pending: Seq<bool>,
    from: int,
    end: int,
    complete: bool,
    expired: bool,
) -> OutputStep
    decreases end - from,
{
    if from >= end || from >= pending.len() {
        OutputStep::Settled(
            if complete {
                Ok(())
            } else {
                Err(CapsuleCleanupUnavailable)
            },
        )
    } else if 0 <= from && pending[from] {
        OutputStep::Await { task: from as usize, end: end as usize, complete, expired }
    } else {
        output_from(pending, from + 1, end, complete, expired)
    }
}

/// The state with one output task no longer pending.
pub open spec fn released(state: ProcessesView, task: int) -> ProcessesView {
    if 0 <= task < state.pending.len() {
        ProcessesView { pending: state.pending.update(task, false), ..state }
    } else {
        state
    }
}

pub open spec fn output_next(
    state: ProcessesView,
    step: OutputStep,
    event: OutputEvent,
) -> (ProcessesView, OutputStep) {
    match (step, event) {
        (OutputStep::Await { task, end, complete, expired }, OutputEvent::Ended(logged)) => {
            let after = released(state, task as int);
            (
                after,
                output_from(after.pending, task + 1, end as int, complete && logged, expired),
            )
        },
        (OutputStep::Await { task, end, .. }, OutputEvent::DeadlineElapsed) => (
            state,
            OutputStep::Abort { task, end },
        ),
        (OutputStep::Abort { task, end }, OutputEvent::Aborted) => {
            let after = released(state, task as int);
            (after, output_from(after.pending, task + 1, end as int, false, true))
        },
        _ => (state, step),
    }
}

/// The processes and output tasks of a run.
#[derive(Debug)]
pub struct EnvironmentProcesses {
    processes: Vec<bool>,
    outputs: Vec<HookOutput>,
    output: Vec<bool>,
    drains: Vec<usize>,
}

/// The views of some outputs.
pub open spec fn output_views(outputs: Seq<HookOutput>) -> Seq<OutputView> {
    outputs.map_values(|output: HookOutput| output@)
}

impl View for EnvironmentProcesses {
    type V = ProcessesView;

    closed spec fn view(&self) -> ProcessesView {
        ProcessesView {
            active: self.processes@,
            outputs: output_views(self.outputs@),
            pending: self.output@,
            drains: self.drains@,
        }
    }
}

impl Default for EnvironmentProcesses {
    fn default() -> (processes: Self)
        ensures
            processes@ == (ProcessesView {
                active: Seq::empty(),
                outputs: Seq::empty(),
                pending: Seq::empty(),
                drains: Seq::empty(),
            }),
    {
        EnvironmentProcesses {
            processes: Vec::new(),
            outputs: Vec::new(),
            output: Vec::new(),
            drains: Vec::new(),
        }
    }
}

impl EnvironmentProcesses {
    /// The first step of a hook.
    pub fn run(&self, request: &HookRequest, linux: bool) -> (step: HookRun)
        ensures
            step == hook_start(request.phase, request.script, linux),
    {
        HookRun::start(request, linux)
    }

    /// Adds an output task that drains into the output of a process.
    fn add_task(&mut self, process: usize) -> (task: usize)
        ensures
            task == old(self)@.pending.len(),
            final(self)@ == (ProcessesView {
                pending: old(self)@.pending.push(true),
                drains: old(self)@.drains.push(process),
                ..old(self)@
            }),
    {
        let task = self.output.len();
        self.output.push(true);
        self.drains.push(process);
        task
    }

    /// Takes a reply to a shell that is being started.  Only a shell that has
    /// started is registered, with one output for all of its pipes and one
    /// output task for each of them.
    pub fn spawn(&mut self, request: &HookRequest, step: SpawnStep, event: SpawnEvent) -> (next:
        SpawnStep)
        ensures
            (final(self)@, next) == spawn_next(old(self)@, *request, step, event),
    {
        let ghost before = self@;
        match (step, event) {
            (SpawnStep::Register, SpawnEvent::Registered(done)) => if !done {
                SpawnStep::Settled(Err(request.phase.failure()))
            } else {
                match request.phase {
                    HookPhase::Setup => SpawnStep::Launch,
                    HookPhase::Startup => SpawnStep::PrepareDomain,
                }
            },
            (SpawnStep::PrepareDomain, SpawnEvent::DomainPrepared(done)) => if done {
                SpawnStep::Launch
            } else {
                SpawnStep::Settled(Err(request.phase.failure()))
            },
            (SpawnStep::Launch, SpawnEvent::Launched(pipes)) => match pipes {
                None => SpawnStep::Settled(Err(request.phase.failure())),
                Some(pipes) => {
                    let process = self.processes.len();
                    let output = self.outputs.len();
                    self.processes.push(true);
                    self.outputs.push(HookOutput::of(request));
                    assert(self@.outputs =~= before.outputs.push(output_of(*request)));
                    let stdout = if pipes.stdout {
                        Some(self.add_task(output))
                    } else {
                        None
                    };
                    let stderr = if pipes.stderr {
                        Some(self.add_task(output))
                    } else {
                        None
                    };
                    assert(self@ =~= registered(before, *request, pipes));
                    SpawnStep::Settled(Ok(SpawnedHook { process, stdout, stderr }))
                },
            },
            _ => step,
        }
    }

    /// The texts that an output task must not let into the log.
    pub fn redactions(&self, task: usize) -> (redactions: Option<&Vec<String>>)
        ensures
            redactions is Some == redactions_of(self@, task as int) is Some,
            redactions is Some ==> texts(redactions->0@) == redactions_of(self@, task as int)->0,
    {
        if task < self.drains.len() && self.drains[task] < self.outputs.len() {
            Some(self.outputs[self.drains[task]].redactions())
        } else {
            None
        }
    }

    /// Takes a safe line of an output task and gives what is logged of it.  The
    /// line counts for the process whose pipe the task drains.
    pub fn line(&mut self, task: usize, line: SafeLine) -> (entry: Option<String>)
        ensures
            final(self)@ == line_next(old(self)@, task as int, line).0,
            entry is Some == line_next(old(self)@, task as int, line).1 is Some,
            entry is Some ==> entry->0@ == line_next(old(self)@, task as int, line).1->0,
    {
        let ghost before = self@;
        if task < self.drains.len() && self.drains[task] < self.outputs.len() {
            let process = self.drains[task];
            let entry = self.outputs[process].line(line);
            assert(self@.outputs =~= before.outputs.update(
                process as int,
                counting(before.outputs[process as int], line),
            ));
            entry
        } else {
            None
        }
    }

    fn retire(&mut self, process: usize)
        ensures
            final(self)@ == retired(old(self)@, process as int),
    {
        if process < self.processes.len() {
            self.processes[process] = false;
        }
    }

    fn release(&mut self, task: usize)
        ensures
            final(self)@ == released(old(self)@, task as int),
    {
        if task < self.output.len() {
            self.output[task] = false;
        }
    }

    /// Takes a reply to a shell that is being waited for.
    pub fn wait(&mut self, step: WaitStep, event: WaitEvent) -> (next: WaitStep)
        ensures
            (final(self)@, next) == wait_next(old(self)@, step, event),
    {
        match (step, event) {
            (WaitStep::Wait { phase, process }, WaitEvent::Ended(outcome)) => {
                let stays = match phase {
                    HookPhase::Setup => false,
                    HookPhase::Startup => outcome.success(),
                };
                if stays {
                    self.retire(process);
                    WaitStep::Settled(Ok(outcome))
                } else {
                    WaitStep::Terminate { phase, process, outcome }
                }
            },
            (
                WaitStep::Terminate { phase, process, outcome },
                WaitEvent::Terminated(proven),
            ) => if proven {
                self.retire(process);
                WaitStep::Settled(Ok(outcome))
            } else {
                WaitStep::Settled(Err(phase.failure()))
            },
            (step, _) => step,
        }
    }

    fn next_active(&self, from: usize, end: usize) -> (step: CleanupStep)
        ensures
            step == cleanup_from(self@.active, from as int, end as int),
    {
        let mut process: usize = from;
        while process < end && process < self.processes.len()
            invariant_except_break
                cleanup_from(self@.active, from as int, end as int) == cleanup_from(
                    self@.active,
                    process as int,
                    end as int,
                ),
            ensures
                cleanup_from(self@.active, from as int, end as int) == CleanupStep::Settled(Ok(())),
            decreases end - process,
        {
            if self.processes[process] {
                return CleanupStep::Terminate { process, end };
            }
            process = process + 1;
        }
        CleanupStep::Settled(Ok(()))
    }

    /// Starts a cleanup of the processes that are registered now.
    pub fn cleanup(&self) -> (step: CleanupStep)
        ensures
            step == cleanup_from(self@.active, 0, self@.active.len() as int),
    {
        self.next_active(0, self.processes.len())
    }

    /// Takes the reply to a termination.
    pub fn terminated(&mut self, step: CleanupStep, proven: bool) -> (next: CleanupStep)
        ensures
            (final(self)@, next) == cleanup_next(old(self)@, step, proven),
    {
        match step {
            CleanupStep::Terminate { process, end } => if proven {
                self.retire(process);
                if process < end {
                    self.next_active(process + 1, end)
                } else {
                    CleanupStep::Settled(Ok(()))
                }
            } else {
                CleanupStep::Settled(Err(CapsuleCleanupUnavailable))
            },
            CleanupStep::Settled(result) => CleanupStep::Settled(result),
        }
    }

    fn next_pending(&self, from: usize, end: usize, complete: bool, expired: bool) -> (step:
        OutputStep)
        ensures
            step == output_from(self@.pending, from as int, end as int, complete, expired),
    {
        let mut task: usize = from;
        while task < end && task < self.output.len()
            invariant_except_break
                output_from(self@.pending, from as int, end as int, complete, expired)
                    == output_from(self@.pending, task as int, end as int, complete, expired),
            ensures
                output_from(self@.pending, from as int, end as int, complete, expired)
                    == OutputStep::Settled(
                    if complete {
                        Ok(())
                    } else {
                        Err(CapsuleCleanupUnavailable)
                    },
                ),
            decreases end - task,
        {
            if self.output[task] {
                return OutputStep::Await { task, end, complete, expired };
            }
            task = task + 1;
        }
        OutputStep::Settled(
            if complete {
                Ok(())
            } else {
                Err(CapsuleCleanupUnavailable)
            },
        )
    }

    /// Starts an end of the output tasks that are registered now.
    pub fn finish_output(&self) -> (step: OutputStep)
        ensures
            step == output_from(self@.pending, 0, self@.pending.len() as int, true, false),
    {
        self.next_pending(0, self.output.len(), true, false)
    }

    /// Takes a reply to an end of output.  A task stays pending until it has
    /// ended or is gone.
    pub fn output_reply(&mut self, step: OutputStep, event: OutputEvent) -> (next: OutputStep)
        ensures
            (final(self)@, next) == output_next(old(self)@, step, event),
    {
        match (step, event) {
            (OutputStep::Await { task, end, complete, expired }, OutputEvent::Ended(logged)) => {
                self.release(task);
                self.pending_behind(task, end, complete && logged, expired)
            },
            (OutputStep::Await { task, end, .. }, OutputEvent::DeadlineElapsed) => {
                OutputStep::Abort { task, end }
            },
            (OutputStep::Abort { task, end }, OutputEvent::Aborted) => {
                self.release(task);
                self.pending_behind(task, end, false, true)
            },
            _ => step,
        }
    }

    fn pending_behind(&self, task: usize, end: usize, complete: bool, expired: bool) -> (step:
        OutputStep)
        ensures
            step == output_from(self@.pending, task + 1, end as int, complete, expired),
    {
        if task < end {
            self.next_pending(task + 1, end, complete, expired)
        } else {
            OutputStep::Settled(
                if complete {
                    Ok(())
                } else {
                    Err(CapsuleCleanupUnavailable)
                },
            )
        }
    }
}

} // verus!
