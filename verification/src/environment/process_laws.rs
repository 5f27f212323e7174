//! What the processes and output tasks of a run go through, over all replies.
use crate::environment::hook::{succeeded, HookOutcome, HookPhase, HookRequest};
use crate::environment::output::{
    counted_after, counting, entry_of, limit_notice, logged_of, output_of,
    output_stays_within_the_budget, rendered, safe_text, total_bytes, SafeLine, MAX_OUTPUT_BYTES,
};
use crate::environment::processes::{
    cleanup_from, cleanup_next, drains_into, line_next, output_from, output_next,
    redactions_of, sound,
    spawn_next, wait_next, CleanupStep, OutputEvent, OutputStep, Pipes, ProcessesView,
    SpawnEvent, SpawnStep, WaitEvent, WaitStep,
};
use crate::failure::{CapsuleAllocationUnavailable, CapsuleCleanupUnavailable};
use crate::history::{among, found_at, found_before_or_last};
use vstd::prelude::*;

verus! {

/// A cleanup of some processes after these replies, in order.
pub open spec fn cleanup_run(start: ProcessesView, replies: Seq<bool>) -> (
    ProcessesView,
    CleanupStep,
)
    decreases replies.len(),
{
    if replies.len() == 0 {
        (start, cleanup_from(start.active, 0, start.active.len() as int))
    } else {
        let (state, step) = cleanup_run(start, replies.drop_last());
        cleanup_next(state, step, replies.last())
    }
}

/// No process before this one is active, and those from it on are as they
/// were.
pub open spec fn swept_up_to(start: ProcessesView, state: ProcessesView, process: int) -> bool {
    &&& forall|i: int| 0 <= i < process ==> !(#[trigger] state.active[i])
    &&& forall|i: int|
        process <= i < start.active.len() ==> #[trigger] state.active[i] == start.active[i]
}

proof fn sweep_finds_the_next(active: Seq<bool>, from: int)
    requires
        0 <= from <= active.len() <= usize::MAX,
    ensures
        match cleanup_from(active, from, active.len() as int) {
            CleanupStep::Terminate { process, end } => {
                &&& from <= process < active.len()
                &&& end == active.len()
                &&& active[process as int]
                &&& forall|i: int| from <= i < process ==> !(#[trigger] active[i])
            },
            CleanupStep::Settled(result) => {
                &&& result is Ok
                &&& forall|i: int| from <= i < active.len() ==> !(#[trigger] active[i])
            },
        },
    decreases active.len() - from,
{
    if from < active.len() && !active[from] {
        sweep_finds_the_next(active, from + 1);
    }
}

/// A cleanup that succeeds leaves no process active.  One that fails stops at
/// a process that is still active, leaves the later ones as they were, and a
/// cleanup after it starts with that process.
pub proof fn cleanup_stops_only_at_a_live_tree(start: ProcessesView, replies: Seq<bool>)
    requires
        start.active.len() <= usize::MAX,
    ensures
        ({
            let (state, step) = cleanup_run(start, replies);
            &&& state == (ProcessesView { active: state.active, ..start })
            &&& state.active.len() == start.active.len()
            &&& match step {
                CleanupStep::Terminate { process, end } => {
                    &&& process < state.active.len()
                    &&& end == state.active.len()
                    &&& state.active[process as int]
                    &&& swept_up_to(start, state, process as int)
                },
                CleanupStep::Settled(Ok(_)) => forall|i: int|
                    0 <= i < state.active.len() ==> !(#[trigger] state.active[i]),
                CleanupStep::Settled(Err(_)) => exists|process: int|
                    {
                        &&& 0 <= process < state.active.len()
                        &&& state.active[process]
                        &&& #[trigger] swept_up_to(start, state, process)
                        &&& cleanup_from(state.active, 0, state.active.len() as int)
                            == (CleanupStep::Terminate {
                            process: process as usize,
                            end: state.active.len() as usize,
                        })
                    },
            }
        }),
    decreases replies.len(),
{
    if replies.len() == 0 {
        sweep_finds_the_next(start.active, 0);
    } else {
        cleanup_stops_only_at_a_live_tree(start, replies.drop_last());
        let (before, step) = cleanup_run(start, replies.drop_last());
        let (after, next) = cleanup_run(start, replies);
        if let CleanupStep::Terminate { process, end } = step {
            if replies.last() {
                sweep_finds_the_next(after.active, process + 1);
                if let CleanupStep::Terminate { process: later, .. } = next {
                    assert forall|i: int| later <= i < start.active.len() implies after.active[i]
                        == start.active[i] by {
                        assert(before.active[i] == start.active[i]);
                    }
                    assert forall|i: int| 0 <= i < later implies !after.active[i] by {
                        if i < process {
                            assert(!before.active[i]);
                        }
                    }
                } else {
                    assert forall|i: int| 0 <= i < after.active.len() implies !after.active[i] by {
                        if i < process {
                            assert(!before.active[i]);
                        }
                    }
                }
            } else {
                sweep_finds_the_next(after.active, 0);
                assert(swept_up_to(start, after, process as int));
                match cleanup_from(after.active, 0, after.active.len() as int) {
                    CleanupStep::Terminate { process: found, .. } => {
                        assert(found == process);
                    },
                    CleanupStep::Settled(_) => {
                        assert(!after.active[process as int]);
                    },
                }
            }
        }
    }
}

/// A cleanup with nothing active ends at once, so a second one after a success
/// terminates nothing again.
pub proof fn cleanup_is_done_once(start: ProcessesView, replies: Seq<bool>)
    requires
        start.active.len() <= usize::MAX,
        cleanup_run(start, replies).1 is Settled,
        cleanup_run(start, replies).1->Settled_0 is Ok,
    ensures
        ({
            let state = cleanup_run(start, replies).0;
            &&& cleanup_run(state, Seq::empty()).0 == state
            &&& cleanup_run(state, Seq::empty()).1 is Settled
            &&& cleanup_run(state, Seq::empty()).1->Settled_0 is Ok
        }),
{
    cleanup_stops_only_at_a_live_tree(start, replies);
    sweep_finds_the_next(cleanup_run(start, replies).0.active, 0);
}

/// Each reply brings a cleanup at least one process further, so that it comes
/// to its end; and it succeeds if every termination emptied its tree.
pub proof fn cleanups_come_to_an_end(start: ProcessesView, replies: Seq<bool>)
    requires
        start.active.len() <= usize::MAX,
    ensures
        ({
            let step = cleanup_run(start, replies).1;
            &&& step is Terminate ==> replies.len() <= step->process < start.active.len()
            &&& replies.len() >= start.active.len() ==> step is Settled
            &&& step is Settled && (forall|i: int|
                0 <= i < replies.len() ==> #[trigger] replies[i]) ==> step->Settled_0 is Ok
        }),
    decreases replies.len(),
{
    if replies.len() == 0 {
        sweep_finds_the_next(start.active, 0);
    } else {
        let front = replies.drop_last();
        cleanups_come_to_an_end(start, front);
        cleanup_stops_only_at_a_live_tree(start, front);
        let step = cleanup_run(start, front).1;
        let after = cleanup_run(start, replies).0;
        if forall|i: int| 0 <= i < replies.len() ==> #[trigger] replies[i] {
            assert forall|i: int| 0 <= i < front.len() implies #[trigger] front[i] by {
                assert(replies[i]);
            }
            assert(replies[replies.len() - 1]);
        }
        if let CleanupStep::Terminate { process, .. } = step {
            if replies.last() {
                sweep_finds_the_next(after.active, process + 1);
            }
        }
    }
}

/// The reply proves that the tree of this process is empty.
pub open spec fn empties(start: ProcessesView, process: int) -> spec_fn(Seq<bool>, bool) -> bool {
    |before: Seq<bool>, proven: bool|
        {
            &&& cleanup_run(start, before).1 is Terminate
            &&& cleanup_run(start, before).1->process == process
            &&& proven
        }
}

/// A cleanup makes a process inactive by a termination that is proven to have
/// emptied its tree, and by nothing else.
pub proof fn cleanups_retire_exactly_empty_trees(
    start: ProcessesView,
    replies: Seq<bool>,
    process: int,
)
    requires
        start.active.len() <= usize::MAX,
        0 <= process < start.active.len(),
    ensures
        among(replies, empties(start, process)) ==> start.active[process],
        cleanup_run(start, replies).0.active[process] == (start.active[process] && !among(
            replies,
            empties(start, process),
        )),
    decreases replies.len(),
{
    if replies.len() > 0 {
        let front = replies.drop_last();
        cleanups_retire_exactly_empty_trees(start, front, process);
        cleanup_stops_only_at_a_live_tree(start, front);
        found_before_or_last(replies, empties(start, process));
    }
}

/// An end of some output tasks after these replies, in order.
pub open spec fn output_run(start: ProcessesView, events: Seq<OutputEvent>) -> (
    ProcessesView,
    OutputStep,
)
    decreases events.len(),
{
    if events.len() == 0 {
        (start, output_from(start.pending, 0, start.pending.len() as int, true, false))
    } else {
        let (state, step) = output_run(start, events.drop_last());
        output_next(state, step, events.last())
    }
}

/// The reply says that a task has ended with all its output logged.
pub open spec fn logs_fully(start: ProcessesView, task: int) -> spec_fn(
    Seq<OutputEvent>,
    OutputEvent,
) -> bool {
    |before: Seq<OutputEvent>, event: OutputEvent|
        {
            &&& output_run(start, before).1 is Await
            &&& output_run(start, before).1->Await_task == task
            &&& event == OutputEvent::Ended(true)
        }
}

/// Among these replies a task was reported to have ended with all its output
/// logged.
pub open spec fn logged_fully(start: ProcessesView, events: Seq<OutputEvent>, task: int) -> bool {
    among(events, logs_fully(start, task))
}

/// The reply says that a task has ended with output missing or is too late.
pub open spec fn falls_short(start: ProcessesView) -> spec_fn(Seq<OutputEvent>, OutputEvent) -> bool {
    |before: Seq<OutputEvent>, event: OutputEvent|
        {
            &&& output_run(start, before).1 is Await
            &&& event == OutputEvent::Ended(false) || event == OutputEvent::DeadlineElapsed
        }
}

/// Among these replies some task ended with output missing or was too late.
pub open spec fn fell_short(start: ProcessesView, events: Seq<OutputEvent>) -> bool {
    among(events, falls_short(start))
}

/// The reply says that the deadline has come while a task was waited for.
pub open spec fn elapses(start: ProcessesView) -> spec_fn(Seq<OutputEvent>, OutputEvent) -> bool {
    |before: Seq<OutputEvent>, event: OutputEvent|
        output_run(start, before).1 is Await && event == OutputEvent::DeadlineElapsed
}

/// Among these replies the deadline came.
pub open spec fn elapsed(start: ProcessesView, events: Seq<OutputEvent>) -> bool {
    among(events, elapses(start))
}

proof fn output_finds_the_next(pending: Seq<bool>, from: int, complete: bool, expired: bool)
    requires
        0 <= from <= pending.len() <= usize::MAX,
    ensures
        match output_from(pending, from, pending.len() as int, complete, expired) {
            OutputStep::Await { task, end, complete: so_far, expired: late } => {
                &&& from <= task < pending.len()
                &&& end == pending.len()
                &&& so_far == complete
                &&& late == expired
                &&& pending[task as int]
                &&& forall|i: int| from <= i < task ==> !(#[trigger] pending[i])
            },
            OutputStep::Abort { .. } => false,
            OutputStep::Settled(result) => {
                &&& result is Ok == complete
                &&& forall|i: int| from <= i < pending.len() ==> !(#[trigger] pending[i])
            },
        },
    decreases pending.len() - from,
{
    if from < pending.len() && !pending[from] {
        output_finds_the_next(pending, from + 1, complete, expired);
    }
}

/// Every task before this one that was pending has been logged fully.
pub open spec fn logged_before(
    start: ProcessesView,
    events: Seq<OutputEvent>,
    task: int,
) -> bool {
    forall|i: int|
        0 <= i < task && start.pending[i] ==> #[trigger] logged_fully(start, events, i)
}

/// No task before this one is pending, and those from it on are as they were.
pub open spec fn settled_up_to(start: ProcessesView, state: ProcessesView, task: int) -> bool {
    &&& forall|i: int| 0 <= i < task ==> !(#[trigger] state.pending[i])
    &&& forall|i: int|
        task <= i < start.pending.len() ==> #[trigger] state.pending[i] == start.pending[i]
}

/// An end of output leaves no task pending.  It succeeds exactly if no task ended
/// with output missing or too late, and then every task that was pending ended
/// in time with all its output logged.  Until a task has ended or is gone it stays pending.  All
/// tasks share one deadline: once it has come it has come for every later task.
pub proof fn output_ends_completely_or_says_so(start: ProcessesView, events: Seq<OutputEvent>)
    requires
        start.pending.len() <= usize::MAX,
    ensures
        ({
            let (state, step) = output_run(start, events);
            &&& state == (ProcessesView { pending: state.pending, ..start })
            &&& state.pending.len() == start.pending.len()
            &&& match step {
                OutputStep::Await { task, end, complete, expired } => {
                    &&& task < state.pending.len()
                    &&& end == state.pending.len()
                    &&& state.pending[task as int]
                    &&& settled_up_to(start, state, task as int)
                    &&& complete ==> logged_before(start, events, task as int)
                    &&& complete == !fell_short(start, events)
                    &&& expired == elapsed(start, events)
                },
                OutputStep::Abort { task, end } => {
                    &&& task < state.pending.len()
                    &&& end == state.pending.len()
                    &&& state.pending[task as int]
                    &&& settled_up_to(start, state, task as int)
                    &&& fell_short(start, events)
                    &&& elapsed(start, events)
                },
                OutputStep::Settled(result) => {
                    &&& forall|i: int|
                        0 <= i < state.pending.len() ==> !(#[trigger] state.pending[i])
                    &&& result is Ok ==> logged_before(start, events, start.pending.len() as int)
                    &&& result is Ok == !fell_short(start, events)
                },
            }
        }),
    decreases events.len(),
{
    if events.len() == 0 {
        output_finds_the_next(start.pending, 0, true, false);
    } else {
        output_ends_completely_or_says_so(start, events.drop_last());
        found_before_or_last(events, falls_short(start));
        found_before_or_last(events, elapses(start));
        assert forall|task: int|
            logged_fully(start, events.drop_last(), task) implies #[trigger] logged_fully(
            start,
            events,
            task,
        ) by {
            found_before_or_last(events, logs_fully(start, task));
        }
        let (before, step) = output_run(start, events.drop_last());
        let (after, next) = output_run(start, events);
        match (step, events.last()) {
            (OutputStep::Await { task, end, complete, expired }, OutputEvent::Ended(logged)) => {
                output_finds_the_next(after.pending, task + 1, complete && logged, expired);
                found_before_or_last(events, logs_fully(start, task as int));
                settling_moves_on(start, before, after, task as int);
                if complete && logged {
                    let reached = match next {
                        OutputStep::Await { task: later, .. } => later as int,
                        _ => start.pending.len() as int,
                    };
                    assert forall|i: int| 0 <= i < reached && start.pending[i] implies
                        #[trigger] logged_fully(start, events, i) by {
                        if i < task {
                            assert(logged_fully(start, events.drop_last(), i));
                        } else if i > task {
                            assert(after.pending[i] == start.pending[i]);
                        }
                    }
                }
            },
            (OutputStep::Abort { task, end }, OutputEvent::Aborted) => {
                output_finds_the_next(after.pending, task + 1, false, true);
                settling_moves_on(start, before, after, task as int);
            },
            (OutputStep::Await { task, complete, .. }, _) => {
                if complete {
                    assert forall|i: int| 0 <= i < task && start.pending[i] implies
                        #[trigger] logged_fully(start, events, i) by {
                        assert(logged_fully(start, events.drop_last(), i));
                    }
                }
            },
            (OutputStep::Settled(result), _) => {
                if result is Ok {
                    assert forall|i: int| 0 <= i < start.pending.len() && start.pending[i] implies
                        #[trigger] logged_fully(start, events, i) by {
                        assert(logged_fully(start, events.drop_last(), i));
                    }
                }
            },
            _ => {},
        }
    }
}

/// An end of output that has settled, well or not, leaves nothing to wait for:
/// a second one settles well at once.
pub proof fn output_is_ended_once(start: ProcessesView, events: Seq<OutputEvent>)
    requires
        start.pending.len() <= usize::MAX,
        output_run(start, events).1 is Settled,
    ensures
        ({
            let state = output_run(start, events).0;
            &&& output_run(state, Seq::empty()).0 == state
            &&& output_run(state, Seq::empty()).1 is Settled
            &&& output_run(state, Seq::empty()).1->Settled_0 is Ok
        }),
{
    output_ends_completely_or_says_so(start, events);
    output_finds_the_next(output_run(start, events).0.pending, 0, true, false);
}

proof fn settling_moves_on(
    start: ProcessesView,
    before: ProcessesView,
    after: ProcessesView,
    task: int,
)
    requires
        0 <= task < before.pending.len(),
        before.pending.len() == start.pending.len(),
        settled_up_to(start, before, task),
        after.pending == before.pending.update(task, false),
    ensures
        forall|i: int| 0 <= i <= task ==> !(#[trigger] after.pending[i]),
        forall|i: int|
            task < i < start.pending.len() ==> #[trigger] after.pending[i] == start.pending[i],
{
    assert forall|i: int| 0 <= i <= task implies !(#[trigger] after.pending[i]) by {
        if i < task {
            assert(!before.pending[i]);
        }
    }
    assert forall|i: int| task < i < start.pending.len() implies #[trigger] after.pending[i]
        == start.pending[i] by {
        assert(before.pending[i] == start.pending[i]);
    }
}

/// The reply answers the step.
pub open spec fn answers(step: OutputStep, event: OutputEvent) -> bool {
    match step {
        OutputStep::Await { .. } => event is Ended || event is DeadlineElapsed,
        OutputStep::Abort { .. } => event is Aborted,
        OutputStep::Settled(_) => true,
    }
}

/// Each of these replies answered its step.
pub open spec fn all_answered(start: ProcessesView, events: Seq<OutputEvent>) -> bool {
    forall|i: int|
        0 <= i < events.len() ==> answers(
            output_run(start, #[trigger] events.take(i)).1,
            events[i],
        )
}

/// Two replies for each task at most bring an end of output to its end, if each
/// answers its step; and it succeeds if every task ended with all its output
/// logged.
pub proof fn ends_of_output_come_to_an_end(start: ProcessesView, events: Seq<OutputEvent>)
    requires
        start.pending.len() <= usize::MAX,
        all_answered(start, events),
    ensures
        ({
            let step = output_run(start, events).1;
            &&& step is Await ==> events.len() <= 2 * step->Await_task && step->Await_task
                < start.pending.len()
            &&& step is Abort ==> events.len() <= 2 * step->Abort_task + 1 && step->Abort_task
                < start.pending.len()
            &&& events.len() >= 2 * start.pending.len() ==> step is Settled
            &&& step is Settled && (forall|i: int|
                0 <= i < events.len() ==> #[trigger] events[i] == OutputEvent::Ended(true))
                ==> step->Settled_0 is Ok
        }),
    decreases events.len(),
{
    output_ends_completely_or_says_so(start, events);
    if events.len() == 0 {
        output_finds_the_next(start.pending, 0, true, false);
    } else {
        let front = events.drop_last();
        let last = events.len() - 1;
        assert forall|i: int| 0 <= i < front.len() implies answers(
            output_run(start, #[trigger] front.take(i)).1,
            front[i],
        ) by {
            assert(front.take(i) =~= events.take(i));
        }
        ends_of_output_come_to_an_end(start, front);
        output_ends_completely_or_says_so(start, front);
        assert(events.take(last) =~= front);
        let step = output_run(start, front).1;
        let after = output_run(start, events).0;
        match (step, events.last()) {
            (OutputStep::Await { task, complete, expired, .. }, OutputEvent::Ended(logged)) => {
                output_finds_the_next(after.pending, task + 1, complete && logged, expired);
            },
            (OutputStep::Abort { task, .. }, OutputEvent::Aborted) => {
                output_finds_the_next(after.pending, task + 1, false, true);
            },
            _ => {},
        }
        if forall|i: int|
            0 <= i < events.len() ==> #[trigger] events[i] == OutputEvent::Ended(true) {
            if fell_short(start, events) {
                let i = choose|i: int| #[trigger] found_at(events, falls_short(start), i);
                assert(events[i] == OutputEvent::Ended(true));
            }
        }
    }
}

/// A wait for a process after these replies, in order.
pub open spec fn wait_run(
    start: ProcessesView,
    phase: HookPhase,
    process: usize,
    events: Seq<WaitEvent>,
) -> (ProcessesView, WaitStep)
    decreases events.len(),
{
    if events.len() == 0 {
        (start, WaitStep::Wait { phase, process })
    } else {
        let (state, step) = wait_run(start, phase, process, events.drop_last());
        wait_next(state, step, events.last())
    }
}

/// The reply says that a termination has emptied the tree.
pub open spec fn proves_empty(start: ProcessesView, phase: HookPhase, process: usize) -> spec_fn(
    Seq<WaitEvent>,
    WaitEvent,
) -> bool {
    |before: Seq<WaitEvent>, event: WaitEvent|
        {
            &&& wait_run(start, phase, process, before).1 is Terminate
            &&& event == WaitEvent::Terminated(true)
        }
}

/// Among these replies a termination was proven to have emptied the tree.
pub open spec fn tree_proven_empty(
    start: ProcessesView,
    phase: HookPhase,
    process: usize,
    events: Seq<WaitEvent>,
) -> bool {
    among(events, proves_empty(start, phase, process))
}

/// A process is given up only by a wait that settles with an outcome.  A setup
/// hook, and a startup hook that failed, gets there only through a process
/// tree that is proven empty.  Otherwise the process stays active, so that a
/// cleanup finds it.
pub proof fn waits_give_up_only_empty_trees(
    start: ProcessesView,
    phase: HookPhase,
    process: usize,
    events: Seq<WaitEvent>,
)
    requires
        process < start.active.len(),
    ensures
        ({
            let (state, step) = wait_run(start, phase, process, events);
            match step {
                WaitStep::Wait { phase: of, process: at } => {
                    &&& of == phase
                    &&& at == process
                    &&& state == start
                },
                WaitStep::Terminate { phase: of, process: at, outcome } => {
                    &&& of == phase
                    &&& at == process
                    &&& state == start
                    &&& phase == HookPhase::Setup || !succeeded(outcome)
                },
                WaitStep::Settled(Ok(outcome)) => {
                    &&& state == (ProcessesView {
                        active: start.active.update(process as int, false),
                        ..start
                    })
                    &&& phase == HookPhase::Setup || !succeeded(outcome) ==> tree_proven_empty(
                        start,
                        phase,
                        process,
                        events,
                    )
                },
                WaitStep::Settled(Err(_)) => state == start,
            }
        }),
    decreases events.len(),
{
    if events.len() > 0 {
        waits_give_up_only_empty_trees(start, phase, process, events.drop_last());
        found_before_or_last(events, proves_empty(start, phase, process));
    }
}

/// A shell that has been started is active from then on, and nothing that was
/// registered before it changes.  All its pipes drain into one output, which is
/// made for its request and which no earlier pipe drains into.  A shell that
/// could not be started leaves no trace.
pub proof fn started_shells_are_registered(
    state: ProcessesView,
    request: HookRequest,
    step: SpawnStep,
    event: SpawnEvent,
)
    requires
        sound(state),
        state.active.len() < usize::MAX,
        state.pending.len() < usize::MAX - 1,
        !(step is Settled),
    ensures
        ({
            let (after, next) = spawn_next(state, request, step, event);
            let before = state.pending.len() as int;
            &&& sound(after)
            &&& match next {
                SpawnStep::Settled(Ok(hook)) => {
                    &&& hook.process == state.active.len()
                    &&& after.active == state.active.push(true)
                    &&& after.outputs == state.outputs.push(output_of(request))
                    &&& after.pending.take(before) == state.pending
                    &&& after.drains.take(before) == state.drains
                    &&& forall|i: int|
                        before <= i < after.pending.len() ==> #[trigger] after.pending[i]
                            && drains_into(after, i) == Some(hook.process as int)
                    &&& forall|i: int|
                        0 <= i < before ==> #[trigger] drains_into(after, i) == drains_into(
                            state,
                            i,
                        ) && drains_into(after, i) != Some(hook.process as int)
                    &&& hook.stdout is Some ==> before <= hook.stdout->0 < after.pending.len()
                    &&& hook.stderr is Some ==> before <= hook.stderr->0 < after.pending.len()
                    &&& hook.stdout is Some && hook.stderr is Some ==> hook.stdout->0
                        != hook.stderr->0
                },
                _ => after == state,
            }
        }),
{
    let (after, next) = spawn_next(state, request, step, event);
    let before = state.pending.len() as int;
    if next is Settled && next->Settled_0 is Ok {
        assert(after.pending.take(before) =~= state.pending);
        assert(after.drains.take(before) =~= state.drains);
        assert forall|i: int| 0 <= i < before implies #[trigger] after.drains[i]
            == state.drains[i] by {}
    }
}

/// Some lines, each with the output task that hands it in, and what is logged
/// of them.
pub open spec fn lines_run(start: ProcessesView, lines: Seq<(int, SafeLine)>) -> ProcessesView
    decreases lines.len(),
{
    if lines.len() == 0 {
        start
    } else {
        line_next(lines_run(start, lines.drop_last()), lines.last().0, lines.last().1).0
    }
}

/// The lines of one process among them, as they would be logged.
pub open spec fn lines_of(
    start: ProcessesView,
    lines: Seq<(int, SafeLine)>,
    process: int,
) -> Seq<Seq<char>>
    decreases lines.len(),
{
    if lines.len() == 0 {
        Seq::empty()
    } else {
        let before = lines_of(start, lines.drop_last(), process);
        if drains_into(start, lines.last().0) == Some(process) {
            before.push(rendered(start.outputs[process].phase, safe_text(lines.last().1)))
        } else {
            before
        }
    }
}

/// What is logged of the lines of one process among them.
pub open spec fn entries_of(
    start: ProcessesView,
    lines: Seq<(int, SafeLine)>,
    process: int,
) -> Seq<Seq<char>>
    decreases lines.len(),
{
    if lines.len() == 0 {
        Seq::empty()
    } else {
        let front = lines.drop_last();
        let before = entries_of(start, front, process);
        let entry = line_next(lines_run(start, front), lines.last().0, lines.last().1).1;
        if drains_into(start, lines.last().0) == Some(process) && entry is Some {
            before.push(entry->0)
        } else {
            before
        }
    }
}

proof fn lines_count_for_their_process(
    start: ProcessesView,
    lines: Seq<(int, SafeLine)>,
    process: int,
)
    requires
        0 <= process < start.outputs.len(),
        start.outputs[process].counted == 0,
    ensures
        ({
            let state = lines_run(start, lines);
            let phase = start.outputs[process].phase;
            &&& state == (ProcessesView { outputs: state.outputs, ..start })
            &&& state.outputs.len() == start.outputs.len()
            &&& state.outputs[process].phase == phase
            &&& state.outputs[process].redacted == start.outputs[process].redacted
            &&& state.outputs[process].counted == counted_after(lines_of(start, lines, process))
            &&& entries_of(start, lines, process) == logged_of(
                phase,
                lines_of(start, lines, process),
            )
        }),
    decreases lines.len(),
{
    if lines.len() > 0 {
        let front = lines.drop_last();
        lines_count_for_their_process(start, front, process);
        let phase = start.outputs[process].phase;
        let last = rendered(phase, safe_text(lines.last().1));
        let before = lines_of(start, front, process);
        assert(before.push(last).drop_last() =~= before);
        assert(before.push(last).last() == last);
    }
}

/// One hook has one budget: whatever its pipes hand in, in any order and with
/// lines of other hooks in between, is counted together.  As long as all of it
/// stays within the budget all of it is logged.  With the first line that
/// reaches the budget one notice is logged for all pipes, and then nothing more.
pub proof fn pipes_of_a_hook_share_one_budget(
    start: ProcessesView,
    lines: Seq<(int, SafeLine)>,
    process: int,
)
    requires
        0 <= process < start.outputs.len(),
        start.outputs[process].counted == 0,
    ensures
        ({
            let phase = start.outputs[process].phase;
            let own = lines_of(start, lines, process);
            let logged = entries_of(start, lines, process);
            let output = lines_run(start, lines).outputs[process];
            &&& output.counted == counted_after(own)
            &&& output.redacted == start.outputs[process].redacted
            &&& output.phase == phase
            &&& logged == logged_of(phase, own)
            &&& total_bytes(own) < MAX_OUTPUT_BYTES ==> logged == own
            &&& total_bytes(own) >= MAX_OUTPUT_BYTES ==> exists|k: int|
                {
                    &&& 0 <= k < own.len()
                    &&& total_bytes(#[trigger] own.take(k)) < MAX_OUTPUT_BYTES
                    &&& logged == own.take(k).push(limit_notice(phase))
                }
        }),
{
    lines_count_for_their_process(start, lines, process);
    output_stays_within_the_budget(
        start.outputs[process].phase,
        lines_of(start, lines, process),
    );
}

/// A line counts for the hook of its pipe alone: the budget of every other hook
/// stays as it is.  Through another pipe of the same hook the next line would
/// find the same budget.
pub proof fn hooks_have_budgets_of_their_own(
    state: ProcessesView,
    task: int,
    other: int,
    line: SafeLine,
    next: SafeLine,
)
    requires
        sound(state),
        0 <= task < state.drains.len(),
        0 <= other < state.drains.len(),
    ensures
        ({
            let after = line_next(state, task, line).0;
            let process = drains_into(state, task)->0;
            &&& sound(after)
            &&& drains_into(state, task) is Some
            &&& forall|i: int|
                0 <= i < state.outputs.len() && i != process ==> #[trigger] after.outputs[i]
                    == state.outputs[i]
            &&& drains_into(state, other) == Some(process) ==> line_next(after, other, next)
                == line_next(after, task, next)
            &&& drains_into(state, other) != Some(process) ==> line_next(after, other, next).1
                == line_next(state, other, next).1
        }),
{
}

/// What else is done with the processes and output tasks of a run keeps them
/// sound.
pub proof fn registries_stay_sound(
    state: ProcessesView,
    wait: WaitStep,
    ended: WaitEvent,
    cleanup: CleanupStep,
    proven: bool,
    output: OutputStep,
    reply: OutputEvent,
)
    requires
        sound(state),
    ensures
        sound(wait_next(state, wait, ended).0),
        sound(cleanup_next(state, cleanup, proven).0),
        sound(output_next(state, output, reply).0),
        sound(
            ProcessesView {
                active: Seq::empty(),
                outputs: Seq::empty(),
                pending: Seq::empty(),
                drains: Seq::empty(),
            },
        ),
{
}

/// The reply says that the shell has ended in this way.
pub open spec fn ends_with(
    start: ProcessesView,
    phase: HookPhase,
    process: usize,
    outcome: HookOutcome,
) -> spec_fn(Seq<WaitEvent>, WaitEvent) -> bool {
    |before: Seq<WaitEvent>, event: WaitEvent|
        {
            &&& wait_run(start, phase, process, before).1 is Wait
            &&& event == WaitEvent::Ended(outcome)
        }
}

/// A wait gives on how the shell ended and nothing else: the outcome that it
/// settles with, and the one that it carries through a termination, is the very
/// one that ended the wait.
pub proof fn waits_give_on_how_the_shell_ended(
    start: ProcessesView,
    phase: HookPhase,
    process: usize,
    events: Seq<WaitEvent>,
)
    ensures
        match wait_run(start, phase, process, events).1 {
            WaitStep::Terminate { outcome, .. } => among(
                events,
                ends_with(start, phase, process, outcome),
            ),
            WaitStep::Settled(Ok(outcome)) => among(
                events,
                ends_with(start, phase, process, outcome),
            ),
            _ => true,
        },
    decreases events.len(),
{
    if events.len() > 0 {
        waits_give_on_how_the_shell_ended(start, phase, process, events.drop_last());
        match wait_run(start, phase, process, events).1 {
            WaitStep::Terminate { outcome, .. } => {
                found_before_or_last(events, ends_with(start, phase, process, outcome));
            },
            WaitStep::Settled(Ok(outcome)) => {
                found_before_or_last(events, ends_with(start, phase, process, outcome));
            },
            _ => {},
        }
    }
}

/// A shell that has ended settles a wait with its outcome: at once for a startup
/// hook that exited with success, and else once its tree is proven empty.  Only
/// that makes the process inactive.  A tree that is not proven empty is the
/// failure of the phase.  Anything else that is replied changes nothing.
pub proof fn waits_end_with_their_shell(
    state: ProcessesView,
    phase: HookPhase,
    process: usize,
    outcome: HookOutcome,
    step: WaitStep,
    event: WaitEvent,
)
    requires
        process < state.active.len(),
    ensures
        ({
            let retired = ProcessesView {
                active: state.active.update(process as int, false),
                ..state
            };
            let waiting = WaitStep::Wait { phase, process };
            let ending = WaitStep::Terminate { phase, process, outcome };
            let well = phase == HookPhase::Startup && outcome is Exited && outcome->success;
            &&& well ==> wait_next(state, waiting, WaitEvent::Ended(outcome)) == (
                retired,
                WaitStep::Settled(Ok(outcome)),
            )
            &&& !well ==> wait_next(state, waiting, WaitEvent::Ended(outcome)) == (state, ending)
            &&& wait_next(state, ending, WaitEvent::Terminated(true)) == (
                retired,
                WaitStep::Settled(Ok(outcome)),
            )
            &&& wait_next(state, ending, WaitEvent::Terminated(false)) == (
                state,
                WaitStep::Settled(
                    Err(
                        if phase == HookPhase::Setup {
                            CapsuleAllocationUnavailable::EnvironmentSetup
                        } else {
                            CapsuleAllocationUnavailable::EnvironmentStartup
                        },
                    ),
                ),
            )
        }),
        step is Wait && !(event is Ended) ==> wait_next(state, step, event) == (state, step),
        step is Terminate && !(event is Terminated) ==> wait_next(state, step, event) == (
            state,
            step,
        ),
        step is Settled ==> wait_next(state, step, event) == (state, step),
{
}

/// A shell is started behind the registration of its tree and, for startup, the
/// preparation of its domain.  Whatever of these fails is the failure of the
/// phase and leaves no trace, and so does a shell that does not start.
pub proof fn shells_are_started_in_order(
    state: ProcessesView,
    request: HookRequest,
    step: SpawnStep,
    event: SpawnEvent,
)
    ensures
        ({
            let failed = SpawnStep::Settled(
                Err(
                    if request.phase == HookPhase::Setup {
                        CapsuleAllocationUnavailable::EnvironmentSetup
                    } else {
                        CapsuleAllocationUnavailable::EnvironmentStartup
                    },
                ),
            );
            let register = SpawnStep::Register;
            let prepare = SpawnStep::PrepareDomain;
            let launch = SpawnStep::Launch;
            &&& spawn_next(state, request, register, SpawnEvent::Registered(false)) == (
                state,
                failed,
            )
            &&& request.phase == HookPhase::Setup ==> spawn_next(
                state,
                request,
                register,
                SpawnEvent::Registered(true),
            ) == (state, launch)
            &&& request.phase == HookPhase::Startup ==> spawn_next(
                state,
                request,
                register,
                SpawnEvent::Registered(true),
            ) == (state, prepare)
            &&& spawn_next(state, request, prepare, SpawnEvent::DomainPrepared(true)) == (
                state,
                launch,
            )
            &&& spawn_next(state, request, prepare, SpawnEvent::DomainPrepared(false)) == (
                state,
                failed,
            )
            &&& spawn_next(state, request, launch, SpawnEvent::Launched(None)) == (state, failed)
        }),
        step is Register && !(event is Registered) ==> spawn_next(state, request, step, event) == (
            state,
            step,
        ),
        step is PrepareDomain && !(event is DomainPrepared) ==> spawn_next(
            state,
            request,
            step,
            event,
        ) == (state, step),
        step is Launch && !(event is Launched) ==> spawn_next(state, request, step, event) == (
            state,
            step,
        ),
        step is Settled ==> spawn_next(state, request, step, event) == (state, step),
{
}

/// A shell that has started is given one output task for each pipe that it came
/// with and no other, that of stdout before that of stderr.
pub proof fn each_pipe_gets_a_task(state: ProcessesView, request: HookRequest, pipes: Pipes)
    requires
        state.active.len() < usize::MAX,
        state.pending.len() < usize::MAX - 1,
    ensures
        ({
            let (after, next) = spawn_next(
                state,
                request,
                SpawnStep::Launch,
                SpawnEvent::Launched(Some(pipes)),
            );
            let first = state.pending.len();
            let hook = next->Settled_0->Ok_0;
            let count: int = (if pipes.stdout {
                1int
            } else {
                0int
            }) + (if pipes.stderr {
                1int
            } else {
                0int
            });
            &&& next is Settled && next->Settled_0 is Ok
            &&& hook.process == state.active.len()
            &&& after.active == state.active.push(true)
            &&& after.pending.len() == first + count
            &&& after.drains.len() == state.drains.len() + count
            &&& hook.stdout is Some == pipes.stdout
            &&& hook.stderr is Some == pipes.stderr
            &&& pipes.stdout ==> hook.stdout->0 == first
            &&& pipes.stderr && pipes.stdout ==> hook.stderr->0 == first + 1
            &&& pipes.stderr && !pipes.stdout ==> hook.stderr->0 == first
        }),
{
}

/// A line of a task that was never registered counts for nobody and is not
/// logged; any other is counted and logged by the output that its pipe drains
/// into, and that output says what is redacted from it.
pub proof fn lines_go_where_their_pipe_drains(state: ProcessesView, task: int, line: SafeLine)
    requires
        sound(state),
    ensures
        !(0 <= task < state.drains.len()) ==> line_next(state, task, line) == (
            state,
            None::<Seq<char>>,
        ) && drains_into(state, task) is None && redactions_of(state, task) is None,
        0 <= task < state.drains.len() ==> {
            let process = state.drains[task] as int;
            let (after, entry) = line_next(state, task, line);
            &&& drains_into(state, task) == Some(process)
            &&& redactions_of(state, task) == Some(state.outputs[process].redacted)
            &&& entry == entry_of(state.outputs[process], line)
            &&& after == (ProcessesView {
                outputs: state.outputs.update(process, counting(state.outputs[process], line)),
                ..state
            })
        },
{
}

/// A cleanup goes to the first process that is active among those that it is to
/// see to, and is over if there is none, however many there are behind them.
pub proof fn cleanups_go_to_the_first_active(active: Seq<bool>, from: int, end: int)
    requires
        0 <= from <= end <= active.len() <= usize::MAX,
    ensures
        match cleanup_from(active, from, end) {
            CleanupStep::Terminate { process, end: until } => {
                &&& from <= process < end
                &&& until == end
                &&& active[process as int]
                &&& forall|i: int| from <= i < process ==> !(#[trigger] active[i])
            },
            CleanupStep::Settled(result) => {
                &&& result is Ok
                &&& forall|i: int| from <= i < end ==> !(#[trigger] active[i])
            },
        },
    decreases end - from,
{
    if from < end && !active[from] {
        cleanups_go_to_the_first_active(active, from + 1, end);
    }
}

/// A proven termination retires its process and takes the cleanup on behind it;
/// one that is not proven ends the cleanup and changes nothing.  A cleanup that
/// has settled stays so.
pub proof fn terminations_decide_a_cleanup(
    state: ProcessesView,
    process: usize,
    end: usize,
    proven: bool,
    result: Result<(), CapsuleCleanupUnavailable>,
)
    requires
        process < state.active.len(),
    ensures
        ({
            let step = CleanupStep::Terminate { process, end };
            let active = state.active.update(process as int, false);
            &&& cleanup_next(state, step, true) == (
                ProcessesView { active, ..state },
                cleanup_from(active, process + 1, end as int),
            )
            &&& cleanup_next(state, step, false).0 == state
            &&& cleanup_next(state, step, false).1 is Settled
            &&& cleanup_next(state, step, false).1->Settled_0 is Err
        }),
        cleanup_next(state, CleanupStep::Settled(result), proven) == (
            state,
            CleanupStep::Settled(result),
        ),
{
}

/// An end of output goes to the first task that is pending among those that it is
/// to see to, with what it knows so far, and settles by that if there is none.
pub proof fn ends_of_output_go_to_the_first_pending(
    pending: Seq<bool>,
    from: int,
    end: int,
    complete: bool,
    expired: bool,
)
    requires
        0 <= from <= end <= pending.len() <= usize::MAX,
    ensures
        match output_from(pending, from, end, complete, expired) {
            OutputStep::Await { task, end: until, complete: so_far, expired: late } => {
                &&& from <= task < end
                &&& until == end
                &&& so_far == complete
                &&& late == expired
                &&& pending[task as int]
                &&& forall|i: int| from <= i < task ==> !(#[trigger] pending[i])
            },
            OutputStep::Abort { .. } => false,
            OutputStep::Settled(result) => {
                &&& result is Ok == complete
                &&& forall|i: int| from <= i < end ==> !(#[trigger] pending[i])
            },
        },
    decreases end - from,
{
    if from < end && !pending[from] {
        ends_of_output_go_to_the_first_pending(pending, from + 1, end, complete, expired);
    }
}

/// A task stops being pending only when it has ended, or when it is gone after
/// it was aborted.  Whoever is too late is aborted first, whether the deadline
/// came now or before, and from then on the deadline has expired for all.
pub proof fn late_tasks_are_aborted(
    state: ProcessesView,
    task: usize,
    end: usize,
    complete: bool,
    expired: bool,
    logged: bool,
    step: OutputStep,
    event: OutputEvent,
)
    requires
        task < state.pending.len(),
    ensures
        ({
            let waiting = OutputStep::Await { task, end, complete, expired };
            let aborting = OutputStep::Abort { task, end };
            let pending = state.pending.update(task as int, false);
            let released = ProcessesView { pending, ..state };
            &&& output_next(state, waiting, OutputEvent::Ended(logged)) == (
                released,
                output_from(pending, task + 1, end as int, complete && logged, expired),
            )
            &&& output_next(state, waiting, OutputEvent::DeadlineElapsed) == (state, aborting)
            &&& output_next(state, aborting, OutputEvent::Aborted) == (
                released,
                output_from(pending, task + 1, end as int, false, true),
            )
        }),
        step is Await && event is Aborted ==> output_next(state, step, event) == (state, step),
        step is Abort && !(event is Aborted) ==> output_next(state, step, event) == (state, step),
        step is Settled ==> output_next(state, step, event) == (state, step),
{
}

} // verus!
