//! The directories that a run's environment needs, and its search path.
//!
//! Paths are the bytes of Unix paths.  On a platform with other paths the host
//! joins the names that are given here in the way of that platform, and no
//! directory has an owner to be changed.
use crate::environment::hook::HookPhase;
use crate::failure::CapsuleAllocationUnavailable;
use crate::history::{among, found_before_or_last};
use crate::text::{concatenate, join, joined, lossy_decoding, lossy_text};
use vstd::prelude::*;
use vstd::string::*;
use vstd::utf8::*;

verus! {

/// Where the tools of a run stand.
pub open spec fn tools_path(run_root: Seq<u8>) -> Seq<u8> {
    joined(run_root, encode_utf8("tools"@))
}

/// Where the executables among the tools of a run stand.
pub open spec fn tools_bin_path(run_root: Seq<u8>) -> Seq<u8> {
    joined(tools_path(run_root), encode_utf8("bin"@))
}

pub fn tools_directory(run_root: &[u8]) -> (path: Vec<u8>)
    ensures
        path@ == tools_path(run_root@),
{
    join(run_root, "tools")
}

/// A search path with one directory before all others.
pub open spec fn searched_first(directory: Seq<char>, base: Seq<char>) -> Seq<char> {
    directory + ":"@ + base
}

/// The search path of a run: its own tools come before everything else.
pub fn search_path(run_root: &[u8], base: &str) -> (path: String)
    ensures
        path@ == searched_first(lossy_decoding(tools_bin_path(run_root@)), base@),
        valid_utf8(tools_bin_path(run_root@)) ==> path@ == searched_first(
            decode_utf8(tools_bin_path(run_root@)),
            base@,
        ),
{
    let bin = ToolsDirectory::Bin.path(run_root);
    let first = lossy_text(bin.as_slice());
    search_path_with(first.as_str(), base)
}

/// The search path of a run whose executables stand in a directory that is
/// shown as this text.
pub fn search_path_with(tools_bin: &str, base: &str) -> (path: String)
    ensures
        path@ == searched_first(tools_bin@, base@),
{
    concatenate(tools_bin, ":", base)
}

/// A directory that holds tools.
#[derive(Clone, Copy, Debug, PartialEq, Eq, Structural)]
pub enum ToolsDirectory {
    Tools,
    Bin,
}

pub open spec fn tools_directory_path(run_root: Seq<u8>, directory: ToolsDirectory) -> Seq<u8> {
    match directory {
        ToolsDirectory::Tools => tools_path(run_root),
        ToolsDirectory::Bin => tools_bin_path(run_root),
    }
}

/// The names below the root of a run that lead to a directory of tools.
pub open spec fn tools_names(directory: ToolsDirectory) -> Seq<&'static str> {
    match directory {
        ToolsDirectory::Tools => seq!["tools"],
        ToolsDirectory::Bin => seq!["tools", "bin"],
    }
}

/// A path with some names put below it, one after the other.
pub open spec fn joined_all(base: Seq<u8>, names: Seq<&'static str>) -> Seq<u8>
    decreases names.len(),
{
    if names.len() == 0 {
        base
    } else {
        joined(joined_all(base, names.drop_last()), encode_utf8(names.last()@))
    }
}

impl ToolsDirectory {
    /// The names to be joined to the root of a run, one after the other.
    pub fn names(self) -> (names: Vec<&'static str>)
        ensures
            names@ == tools_names(self),
    {
        let mut names: Vec<&'static str> = Vec::new();
        names.push("tools");
        match self {
            ToolsDirectory::Tools => {},
            ToolsDirectory::Bin => {
                names.push("bin");
            },
        }
        assert(names@ =~= tools_names(self));
        names
    }

    pub fn path(self, run_root: &[u8]) -> (path: Vec<u8>)
        ensures
            path@ == tools_directory_path(run_root@, self),
    {
        let tools = tools_directory(run_root);
        match self {
            ToolsDirectory::Tools => tools,
            ToolsDirectory::Bin => join(tools.as_slice(), "bin"),
        }
    }
}

/// The tools of a run being prepared: what the host does next for them.
#[derive(Clone, Copy, Debug, PartialEq, Eq)]
pub enum ToolsStep {
    /// Create a directory and all above it.
    Create(ToolsDirectory),
    /// Hand a directory over to the hosted identity.
    HandOver(ToolsDirectory),
    Settled(Result<(), CapsuleAllocationUnavailable>),
}

/// The step once a directory is as it should be.
pub open spec fn tools_behind(directory: ToolsDirectory) -> ToolsStep {
    match directory {
        ToolsDirectory::Tools => ToolsStep::Create(ToolsDirectory::Bin),
        ToolsDirectory::Bin => ToolsStep::Settled(Ok(())),
    }
}

/// The preparation of tools after a reply, where they are or are not owned by
/// an identity.
pub open spec fn tools_next(step: ToolsStep, owned: bool, done: bool) -> ToolsStep {
    match step {
        ToolsStep::Create(directory) => if !done {
            ToolsStep::Settled(Err(CapsuleAllocationUnavailable::Runtime))
        } else if owned {
            ToolsStep::HandOver(directory)
        } else {
            tools_behind(directory)
        },
        ToolsStep::HandOver(directory) => if done {
            tools_behind(directory)
        } else {
            ToolsStep::Settled(Err(CapsuleAllocationUnavailable::Runtime))
        },
        ToolsStep::Settled(_) => step,
    }
}

impl ToolsStep {
    pub fn prepare_tools() -> (step: Self)
        ensures
            step == ToolsStep::Create(ToolsDirectory::Tools),
    {
        ToolsStep::Create(ToolsDirectory::Tools)
    }

    fn behind(directory: ToolsDirectory) -> (step: Self)
        ensures
            step == tools_behind(directory),
    {
        match directory {
            ToolsDirectory::Tools => ToolsStep::Create(ToolsDirectory::Bin),
            ToolsDirectory::Bin => ToolsStep::Settled(Ok(())),
        }
    }

    /// Takes the reply to the current step.  Tools are handed over only on Unix,
    /// and only where there is an identity to own them.
    pub fn next(self, unix: bool, identity: bool, done: bool) -> (step: Self)
        ensures
            step == tools_next(self, unix && identity, done),
    {
        match self {
            ToolsStep::Create(directory) => if !done {
                ToolsStep::Settled(Err(CapsuleAllocationUnavailable::Runtime))
            } else if unix && identity {
                ToolsStep::HandOver(directory)
            } else {
                ToolsStep::behind(directory)
            },
            ToolsStep::HandOver(directory) => if done {
                ToolsStep::behind(directory)
            } else {
                ToolsStep::Settled(Err(CapsuleAllocationUnavailable::Runtime))
            },
            ToolsStep::Settled(result) => ToolsStep::Settled(result),
        }
    }
}

/// The name of the home of a setup hook below the home of the runtime.
pub const SETUP_HOME: &'static str = "setup-home";

/// Where the home of a setup hook stands.
pub open spec fn setup_home_path(runtime_home: Seq<u8>) -> Seq<u8> {
    joined(runtime_home, encode_utf8("setup-home"@))
}

/// A reply of the host to an environment that is being prepared.
#[derive(Debug, PartialEq, Eq)]
pub enum PrepareEvent<P> {
    Done(bool),
    /// The home that the hosted identity was given, if it could be.
    HomePrepared(Option<P>),
}

/// An environment that is being prepared: what the host does next for it.
#[derive(Debug, PartialEq, Eq)]
pub enum PrepareEnvironment<P> {
    /// Prepare the tools of the run, which on Unix an identity owns.
    Tools { phase: HookPhase, unix: bool, setup_home: P, step: ToolsStep },
    /// Create a private directory as the home of a setup hook.
    CreateHome { home: P },
    /// Have the hosted identity prepare its private home.
    PrepareHome,
    Settled(Result<P, CapsuleAllocationUnavailable>),
}

/// The first step of an environment that is being prepared.
pub open spec fn prepare_start<P>(
    phase: HookPhase,
    unix: bool,
    setup_home: P,
) -> PrepareEnvironment<P> {
    PrepareEnvironment::Tools {
        phase,
        unix,
        setup_home,
        step: ToolsStep::Create(ToolsDirectory::Tools),
    }
}

pub open spec fn prepare_next<P>(
    step: PrepareEnvironment<P>,
    event: PrepareEvent<P>,
) -> PrepareEnvironment<P> {
    match (step, event) {
        (
            PrepareEnvironment::Tools { phase, unix, setup_home, step: tools },
            PrepareEvent::Done(done),
        ) => match tools_next(tools, unix, done) {
            ToolsStep::Settled(Ok(_)) => match phase {
                HookPhase::Setup => PrepareEnvironment::CreateHome { home: setup_home },
                HookPhase::Startup => PrepareEnvironment::PrepareHome,
            },
            ToolsStep::Settled(Err(error)) => PrepareEnvironment::Settled(Err(error)),
            next => PrepareEnvironment::Tools { phase, unix, setup_home, step: next },
        },
        (PrepareEnvironment::CreateHome { home }, PrepareEvent::Done(done)) => if done {
            PrepareEnvironment::Settled(Ok(home))
        } else {
            PrepareEnvironment::Settled(Err(CapsuleAllocationUnavailable::Runtime))
        },
        (PrepareEnvironment::PrepareHome, PrepareEvent::HomePrepared(home)) => match home {
            Some(home) => PrepareEnvironment::Settled(Ok(home)),
            None => PrepareEnvironment::Settled(Err(CapsuleAllocationUnavailable::Runtime)),
        },
        _ => step,
    }
}

/// Starts the preparation of an environment for a hook on Unix.
pub fn prepare_environment(runtime_home: &[u8], phase: HookPhase) -> (step: PrepareEnvironment<
    Vec<u8>,
>)
    ensures
        step is Tools,
        step->setup_home@ == setup_home_path(runtime_home@),
        step == prepare_start(phase, true, step->setup_home),
{
    PrepareEnvironment::Tools {
        phase,
        unix: true,
        setup_home: join(runtime_home, SETUP_HOME),
        step: ToolsStep::prepare_tools(),
    }
}

/// Starts the preparation of an environment for a hook on another platform.
/// There the host has joined `SETUP_HOME` to the home of the runtime.
pub fn prepare_environment_elsewhere<P>(setup_home: P, phase: HookPhase) -> (step:
    PrepareEnvironment<P>)
    ensures
        step == prepare_start(phase, false, setup_home),
{
    PrepareEnvironment::Tools { phase, unix: false, setup_home, step: ToolsStep::prepare_tools() }
}

impl<P> PrepareEnvironment<P> {
    /// Takes the reply to the current step.
    pub fn next(self, event: PrepareEvent<P>) -> (step: Self)
        ensures
            step == prepare_next(self, event),
    {
        match (self, event) {
            (
                PrepareEnvironment::Tools { phase, unix, setup_home, step: tools },
                PrepareEvent::Done(done),
            ) => match tools.next(unix, true, done) {
                ToolsStep::Settled(Ok(())) => match phase {
                    HookPhase::Setup => PrepareEnvironment::CreateHome { home: setup_home },
                    HookPhase::Startup => PrepareEnvironment::PrepareHome,
                },
                ToolsStep::Settled(Err(error)) => PrepareEnvironment::Settled(Err(error)),
                next => PrepareEnvironment::Tools { phase, unix, setup_home, step: next },
            },
            (PrepareEnvironment::CreateHome { home }, PrepareEvent::Done(done)) => if done {
                PrepareEnvironment::Settled(Ok(home))
            } else {
                PrepareEnvironment::Settled(Err(CapsuleAllocationUnavailable::Runtime))
            },
            (PrepareEnvironment::PrepareHome, PrepareEvent::HomePrepared(home)) => match home {
                Some(home) => PrepareEnvironment::Settled(Ok(home)),
                None => PrepareEnvironment::Settled(Err(CapsuleAllocationUnavailable::Runtime)),
            },
            (step, _) => step,
        }
    }
}

/// On Unix the path of a directory of tools is the root of the run with the
/// names of the directory joined to it.
pub proof fn tools_stand_below_the_root(run_root: Seq<u8>, directory: ToolsDirectory)
    ensures
        tools_directory_path(run_root, directory) == joined_all(run_root, tools_names(directory)),
{
    reveal_with_fuel(joined_all, 3);
    assert(seq!["tools"].drop_last() =~= Seq::<&'static str>::empty());
    assert(seq!["tools", "bin"].drop_last() =~= seq!["tools"]);
}

/// The preparation of tools after these replies, in order.
pub open spec fn tools_run(owned: bool, replies: Seq<bool>) -> ToolsStep
    decreases replies.len(),
{
    if replies.len() == 0 {
        ToolsStep::Create(ToolsDirectory::Tools)
    } else {
        tools_next(tools_run(owned, replies.drop_last()), owned, replies.last())
    }
}

/// How many things a preparation of tools does.
pub open spec fn tools_effort(owned: bool) -> nat {
    if owned {
        4
    } else {
        2
    }
}

/// The step of a preparation of tools that has done this many things.
pub open spec fn tools_step_at(owned: bool, count: nat) -> ToolsStep {
    if !owned {
        if count == 0 {
            ToolsStep::Create(ToolsDirectory::Tools)
        } else if count == 1 {
            ToolsStep::Create(ToolsDirectory::Bin)
        } else {
            ToolsStep::Settled(Ok(()))
        }
    } else {
        if count == 0 {
            ToolsStep::Create(ToolsDirectory::Tools)
        } else if count == 1 {
            ToolsStep::HandOver(ToolsDirectory::Tools)
        } else if count == 2 {
            ToolsStep::Create(ToolsDirectory::Bin)
        } else if count == 3 {
            ToolsStep::HandOver(ToolsDirectory::Bin)
        } else {
            ToolsStep::Settled(Ok(()))
        }
    }
}

/// Tools are ready exactly if both directories were created and, where they are
/// owned, handed over to their owner, in that order.  The first thing that
/// fails ends the preparation.
pub proof fn tools_are_ready_only_complete(owned: bool, replies: Seq<bool>)
    ensures
        (forall|i: int| 0 <= i < replies.len() && i < tools_effort(owned) ==> replies[i])
            ==> tools_run(owned, replies) == tools_step_at(owned, replies.len()),
        (exists|i: int| 0 <= i < replies.len() && i < tools_effort(owned) && !replies[i])
            ==> tools_run(owned, replies) == ToolsStep::Settled(
            Err(CapsuleAllocationUnavailable::Runtime),
        ),
    decreases replies.len(),
{
    if replies.len() > 0 {
        let front = replies.drop_last();
        tools_are_ready_only_complete(owned, front);
        if forall|i: int| 0 <= i < front.len() && i < tools_effort(owned) ==> front[i] {
            assert(forall|i: int| 0 <= i < front.len() ==> replies[i] == front[i]);
        } else {
            let i = choose|i: int|
                0 <= i < front.len() && i < tools_effort(owned) && !front[i];
            assert(!replies[i]);
        }
    }
}

/// An environment being prepared after these replies, in order.
pub open spec fn prepare_environment_run<P>(
    start: PrepareEnvironment<P>,
    events: Seq<PrepareEvent<P>>,
) -> PrepareEnvironment<P>
    decreases events.len(),
{
    if events.len() == 0 {
        start
    } else {
        prepare_next(prepare_environment_run(start, events.drop_last()), events.last())
    }
}

/// The reply completes this step for the tools.
pub open spec fn completes<P>(start: PrepareEnvironment<P>, step: ToolsStep) -> spec_fn(
    Seq<PrepareEvent<P>>,
    PrepareEvent<P>,
) -> bool {
    |before: Seq<PrepareEvent<P>>, event: PrepareEvent<P>|
        {
            let now = prepare_environment_run(start, before);
            &&& now is Tools && now->step == step
            &&& event == PrepareEvent::<P>::Done(true)
        }
}

/// Among these replies a directory of tools was created and, on Unix, handed
/// over to the identity.
pub open spec fn in_place<P>(
    start: PrepareEnvironment<P>,
    events: Seq<PrepareEvent<P>>,
    unix: bool,
    directory: ToolsDirectory,
) -> bool {
    &&& among(events, completes(start, ToolsStep::Create(directory)))
    &&& unix ==> among(events, completes(start, ToolsStep::HandOver(directory)))
}

/// A hook gets its home only once all tools are in place, which on Unix means
/// that they belong to the identity; on no other platform does anything change
/// its owner.  The home of a setup hook is the one set aside for it, and
/// whatever fails, no capsule can be had.
pub proof fn homes_come_behind_the_tools<P>(
    phase: HookPhase,
    unix: bool,
    setup_home: P,
    events: Seq<PrepareEvent<P>>,
)
    ensures
        ({
            let start = prepare_start(phase, unix, setup_home);
            let tools = in_place(start, events, unix, ToolsDirectory::Tools);
            let bin = in_place(start, events, unix, ToolsDirectory::Bin);
            match prepare_environment_run(start, events) {
                PrepareEnvironment::Tools { phase: of, unix: on, setup_home: home, step } => {
                    &&& of == phase
                    &&& on == unix
                    &&& home == setup_home
                    &&& !(step is Settled)
                    &&& step is HandOver ==> {
                        &&& unix
                        &&& among(events, completes(start, ToolsStep::Create(step->HandOver_0)))
                    }
                    &&& step == ToolsStep::Create(ToolsDirectory::Bin) || step
                        == ToolsStep::HandOver(ToolsDirectory::Bin) ==> tools
                },
                PrepareEnvironment::CreateHome { home } => {
                    &&& phase == HookPhase::Setup
                    &&& home == setup_home
                    &&& tools && bin
                },
                PrepareEnvironment::PrepareHome => phase == HookPhase::Startup && tools && bin,
                PrepareEnvironment::Settled(Ok(home)) => {
                    &&& phase == HookPhase::Setup ==> home == setup_home
                    &&& tools && bin
                },
                PrepareEnvironment::Settled(Err(error)) => error
                    == CapsuleAllocationUnavailable::Runtime,
            }
        }),
    decreases events.len(),
{
    if events.len() > 0 {
        let start = prepare_start(phase, unix, setup_home);
        homes_come_behind_the_tools(phase, unix, setup_home, events.drop_last());
        found_before_or_last(events, completes(start, ToolsStep::Create(ToolsDirectory::Tools)));
        found_before_or_last(events, completes(start, ToolsStep::HandOver(ToolsDirectory::Tools)));
        found_before_or_last(events, completes(start, ToolsStep::Create(ToolsDirectory::Bin)));
        found_before_or_last(events, completes(start, ToolsStep::HandOver(ToolsDirectory::Bin)));
    }
}

/// The tools of a run stand in `tools` below its root, their executables in `bin`
/// below that, and the home of a setup hook in `setup-home` below the home of the
/// runtime.  A run searches its own directory first, then a colon, then the rest.
pub proof fn directories_have_their_places(
    root: Seq<u8>,
    directory: Seq<char>,
    base: Seq<char>,
)
    ensures
        tools_path(root) == joined(root, encode_utf8("tools"@)),
        tools_bin_path(root) == joined(
            joined(root, encode_utf8("tools"@)),
            encode_utf8("bin"@),
        ),
        tools_directory_path(root, ToolsDirectory::Tools) == tools_path(root),
        tools_directory_path(root, ToolsDirectory::Bin) == tools_bin_path(root),
        setup_home_path(root) == joined(root, encode_utf8("setup-home"@)),
        searched_first(directory, base).take(directory.len() as int) == directory,
        searched_first(directory, base).len() == directory.len() + 1 + base.len(),
        searched_first(directory, base)[directory.len() as int] == ':',
        searched_first(directory, base).skip(directory.len() as int + 1) == base,
{
    reveal_strlit(":");
    let path = searched_first(directory, base);
    assert(path.take(directory.len() as int) =~= directory);
    assert(path.skip(directory.len() as int + 1) =~= base);
}

/// An environment is ready with the home that its phase calls for: a setup hook
/// gets the home set aside for it once that is created, a startup hook the very
/// home that the identity was given.  Whatever fails on the way is a lost
/// runtime, and a reply that is not waited for changes nothing.
pub proof fn environments_get_the_home_of_their_phase<P>(
    phase: HookPhase,
    unix: bool,
    setup_home: P,
    home: P,
    step: PrepareEnvironment<P>,
    event: PrepareEvent<P>,
)
    ensures
        ({
            let tools = |step: ToolsStep|
                PrepareEnvironment::Tools { phase, unix, setup_home, step };
            let ready = if phase == HookPhase::Setup {
                PrepareEnvironment::CreateHome { home: setup_home }
            } else {
                PrepareEnvironment::<P>::PrepareHome
            };
            let lost = PrepareEnvironment::<P>::Settled(
                Err(CapsuleAllocationUnavailable::Runtime),
            );
            let create = ToolsStep::Create(ToolsDirectory::Tools);
            let create_bin = ToolsStep::Create(ToolsDirectory::Bin);
            let hand_over = ToolsStep::HandOver(ToolsDirectory::Tools);
            let hand_over_bin = ToolsStep::HandOver(ToolsDirectory::Bin);
            let done = PrepareEvent::<P>::Done(true);
            let failed = PrepareEvent::<P>::Done(false);
            &&& prepare_start(phase, unix, setup_home) == tools(create)
            &&& unix ==> prepare_next(tools(create), done) == tools(hand_over)
            &&& !unix ==> prepare_next(tools(create), done) == tools(create_bin)
            &&& prepare_next(tools(hand_over), done) == tools(create_bin)
            &&& unix ==> prepare_next(tools(create_bin), done) == tools(hand_over_bin)
            &&& !unix ==> prepare_next(tools(create_bin), done) == ready
            &&& prepare_next(tools(hand_over_bin), done) == ready
            &&& prepare_next(tools(create), failed) == lost
            &&& prepare_next(tools(create_bin), failed) == lost
            &&& prepare_next(tools(hand_over), failed) == lost
            &&& prepare_next(tools(hand_over_bin), failed) == lost
            &&& prepare_next(PrepareEnvironment::CreateHome { home }, done)
                == PrepareEnvironment::Settled(Ok(home))
            &&& prepare_next(PrepareEnvironment::CreateHome { home }, failed) == lost
            &&& prepare_next(
                PrepareEnvironment::PrepareHome,
                PrepareEvent::HomePrepared(Some(home)),
            ) == PrepareEnvironment::Settled(Ok(home))
            &&& prepare_next(
                PrepareEnvironment::<P>::PrepareHome,
                PrepareEvent::HomePrepared(None),
            ) == lost
        }),
        (step is Tools || step is CreateHome) && event is HomePrepared ==> prepare_next(
            step,
            event,
        ) == step,
        step is PrepareHome && event is Done ==> prepare_next(step, event) == step,
        step is Settled ==> prepare_next(step, event) == step,
{
}

} // verus!
