//! The output of a hook: cut into lines, made safe, and logged within a budget.
use crate::environment::hook::{phase_name, HookRequest};
use crate::failure::CapsuleAllocationUnavailable;
use crate::text::{
    byte_length, concatenate, control, flatten, flattened, flattened_text_is_one_line,
    lossy_decoding, lossy_text,
};
use vstd::prelude::*;
use vstd::string::*;
use vstd::utf8::*;

verus! {

/// The bytes of output that one hook may log.
pub const MAX_OUTPUT_BYTES: usize = 1024 * 1024;

/// The bytes that one line of output may hold.
pub const MAX_LINE_BYTES: usize = 8 * 1024;

/// The newline that ends a line of output.
pub const NEWLINE: u8 = 0x0a;

/// What is kept of a line, and whether bytes of it were dropped.
#[verifier::ext_equal]
pub struct LineView {
    pub bytes: Seq<u8>,
    pub overflow: bool,
}

/// A stretch of output without a newline, as a line keeps it.
pub open spec fn line_of(segment: Seq<u8>) -> LineView {
    if segment.len() <= MAX_LINE_BYTES {
        LineView { bytes: segment, overflow: false }
    } else {
        LineView { bytes: segment.take(MAX_LINE_BYTES as int), overflow: true }
    }
}

/// The stretches of a stream that a newline has ended, in order.
pub open spec fn completed(stream: Seq<u8>) -> Seq<Seq<u8>>
    decreases stream.len(),
{
    if stream.len() == 0 {
        Seq::empty()
    } else if stream.last() == NEWLINE {
        completed(stream.drop_last()).push(tail(stream.drop_last()))
    } else {
        completed(stream.drop_last())
    }
}

/// What stands behind the last newline of a stream.
pub open spec fn tail(stream: Seq<u8>) -> Seq<u8>
    decreases stream.len(),
{
    if stream.len() == 0 || stream.last() == NEWLINE {
        Seq::empty()
    } else {
        tail(stream.drop_last()).push(stream.last())
    }
}

/// The lines of the stretches that a newline has ended.
pub open spec fn completed_lines(stream: Seq<u8>) -> Seq<LineView> {
    completed(stream).map_values(|segment: Seq<u8>| line_of(segment))
}

/// The lines of a stream that has ended: an unended last line counts unless it
/// is empty.
pub open spec fn all_lines(stream: Seq<u8>) -> Seq<LineView> {
    if tail(stream).len() == 0 {
        completed_lines(stream)
    } else {
        completed_lines(stream).push(line_of(tail(stream)))
    }
}

/// One line of output while its bytes come in.
#[derive(Debug)]
pub struct OutputLine {
    pub bytes: Vec<u8>,
    pub overflow: bool,
}

impl View for OutputLine {
    type V = LineView;

    open spec fn view(&self) -> LineView {
        LineView { bytes: self.bytes@, overflow: self.overflow }
    }
}

impl Default for OutputLine {
    fn default() -> (line: Self)
        ensures
            line@ == line_of(Seq::empty()),
    {
        OutputLine { bytes: Vec::new(), overflow: false }
    }
}

/// A line that has taken one more byte: a newline is not kept, and behind the
/// limit a byte is dropped and the line is marked.
pub open spec fn with_byte(line: LineView, byte: u8) -> LineView {
    if byte == NEWLINE {
        line
    } else if line.bytes.len() < MAX_LINE_BYTES {
        LineView { bytes: line.bytes.push(byte), ..line }
    } else {
        LineView { overflow: true, ..line }
    }
}

impl OutputLine {
    /// Takes one byte.  A newline ends the line and is not kept; behind the
    /// limit a byte is dropped and the line is marked.
    pub fn push(&mut self, byte: u8) -> (ended: bool)
        ensures
            ended == (byte == NEWLINE),
            final(self)@ == with_byte(old(self)@, byte),
    {
        if byte == NEWLINE {
            return true;
        }
        if self.bytes.len() < MAX_LINE_BYTES {
            self.bytes.push(byte);
        } else {
            self.overflow = true;
        }
        false
    }
}

/// A reply of the host to the drain of one pipe.
#[derive(Debug)]
pub enum DrainEvent {
    /// Bytes that were read; none at the end of the stream.
    Received(Vec<u8>),
    ReadFailed,
    Logged,
    LogFailed(CapsuleAllocationUnavailable),
}

/// What a drain has the host do next.
#[derive(Clone, Copy, Debug, PartialEq, Eq)]
pub enum DrainStep {
    Read,
    /// Log the line that `Drain::line` gives.
    Log,
    Finished(Result<(), CapsuleAllocationUnavailable>),
}

/// The state of a drain: the bytes read so far, whether the stream has ended,
/// the lines that were logged, and those that are still to be logged.
#[verifier::ext_equal]
pub struct DrainView {
    pub stream: Seq<u8>,
    pub ended: bool,
    pub logged: Seq<LineView>,
    pub ready: Seq<LineView>,
    pub step: DrainStep,
}

/// A drain that has read nothing.
pub open spec fn initial_drain() -> DrainView {
    DrainView {
        stream: Seq::empty(),
        ended: false,
        logged: Seq::empty(),
        ready: Seq::empty(),
        step: DrainStep::Read,
    }
}

/// The step of a drain with these lines still to be logged.
pub open spec fn settled_step(ready: Seq<LineView>, ended: bool) -> DrainStep {
    if ready.len() > 0 {
        DrainStep::Log
    } else if ended {
        DrainStep::Finished(Ok(()))
    } else {
        DrainStep::Read
    }
}

/// A drain after a reply.  A reply that does not answer its step changes
/// nothing.
pub open spec fn drained(state: DrainView, event: DrainEvent) -> DrainView {
    match (state.step, event) {
        (DrainStep::Read, DrainEvent::Received(chunk)) => {
            let stream = state.stream + chunk@;
            let ended = chunk@.len() == 0;
            let lines = if ended {
                all_lines(stream)
            } else {
                completed_lines(stream)
            };
            let ready = lines.skip(state.logged.len() as int);
            DrainView { stream, ended, ready, step: settled_step(ready, ended), ..state }
        },
        (DrainStep::Read, DrainEvent::ReadFailed) => DrainView {
            step: DrainStep::Finished(Err(CapsuleAllocationUnavailable::Runtime)),
            ..state
        },
        (DrainStep::Log, DrainEvent::Logged) => {
            let ready = state.ready.skip(1);
            DrainView {
                logged: state.logged.push(state.ready[0]),
                ready,
                step: settled_step(ready, state.ended),
                ..state
            }
        },
        (DrainStep::Log, DrainEvent::LogFailed(error)) => DrainView {
            step: DrainStep::Finished(Err(error)),
            ..state
        },
        _ => state,
    }
}

/// A new drain after these replies, in order.
pub open spec fn drain_run(events: Seq<DrainEvent>) -> DrainView
    decreases events.len(),
{
    if events.len() == 0 {
        initial_drain()
    } else {
        drained(drain_run(events.drop_last()), events.last())
    }
}

/// What holds of every drain: each line of the stream so far is logged or
/// about to be, in order, and a drain that has finished well has logged all.
pub open spec fn drain_invariant(state: DrainView) -> bool {
    &&& state.logged + state.ready == (if state.ended {
        all_lines(state.stream)
    } else {
        completed_lines(state.stream)
    })
    &&& state.step is Finished && state.step->Finished_0 is Err || state.step == settled_step(
        state.ready,
        state.ended,
    )
}

/// One pipe of a hook, read to its end and cut into lines.
pub struct Drain {
    line: OutputLine,
    ready: Vec<OutputLine>,
    sent: usize,
    ended: bool,
    step: DrainStep,
    stream: Ghost<Seq<u8>>,
    logged: Ghost<Seq<LineView>>,
}

impl View for Drain {
    type V = DrainView;

    closed spec fn view(&self) -> DrainView {
        DrainView {
            stream: self.stream@,
            ended: self.ended,
            logged: self.logged@,
            ready: line_views(self.ready@).skip(self.sent as int),
            step: self.step,
        }
    }
}

/// The views of some lines.
pub open spec fn line_views(lines: Seq<OutputLine>) -> Seq<LineView> {
    lines.map_values(|line: OutputLine| line@)
}

impl Drain {
    pub closed spec fn well_formed(&self) -> bool {
        &&& self.sent <= self.ready@.len()
        &&& !self.ended ==> self.line@ == line_of(tail(self.stream@))
        &&& drain_invariant(self@)
    }

    pub fn new() -> (drain: Self)
        ensures
            drain.well_formed(),
            drain@ == initial_drain(),
    {
        let drain = Drain {
            line: OutputLine::default(),
            ready: Vec::new(),
            sent: 0,
            ended: false,
            step: DrainStep::Read,
            stream: Ghost(Seq::empty()),
            logged: Ghost(Seq::empty()),
        };
        assert(drain@.ready =~= Seq::empty());
        assert(drain@.logged + drain@.ready =~= completed_lines(drain@.stream));
        drain
    }

    pub fn step(&self) -> (step: DrainStep)
        ensures
            step == self@.step,
    {
        self.step
    }

    /// The line to be logged next.
    pub fn line(&self) -> (line: Option<&OutputLine>)
        requires
            self.well_formed(),
        ensures
            self@.ready.len() == 0 ==> line is None,
            self@.ready.len() > 0 ==> line is Some && line->0@ == self@.ready[0],
    {
        if self.sent < self.ready.len() {
            Some(&self.ready[self.sent])
        } else {
            None
        }
    }

    fn settle(&mut self)
        requires
            old(self).sent <= old(self).ready@.len(),
        ensures
            final(self)@ == (DrainView {
                step: settled_step(old(self)@.ready, old(self)@.ended),
                ..old(self)@
            }),
            *final(self) == (Drain { step: final(self).step, ..*old(self) }),
    {
        self.step = if self.sent < self.ready.len() {
            DrainStep::Log
        } else if self.ended {
            DrainStep::Finished(Ok(()))
        } else {
            DrainStep::Read
        };
    }

    /// Cuts a chunk of the stream into the lines that it completes.
    fn receive(&mut self, chunk: &Vec<u8>)
        requires
            old(self).well_formed(),
            old(self).step == DrainStep::Read,
            chunk@.len() > 0,
        ensures
            final(self).line@ == line_of(tail(final(self).stream@)),
            final(self).sent == 0,
            final(self).step == DrainStep::Read,
            final(self)@.stream == old(self)@.stream + chunk@,
            final(self)@.logged == old(self)@.logged,
            final(self)@.ended == old(self)@.ended,
            final(self)@.logged + final(self)@.ready == completed_lines(final(self)@.stream),
    {
        let ghost before = self.stream@;
        let ghost logged = self.logged@;
        self.ready = Vec::new();
        self.sent = 0;
        let mut i: usize = 0;
        assert(chunk@.take(0) =~= Seq::<u8>::empty());
        assert(before + Seq::<u8>::empty() =~= before);
        while i < chunk.len()
            invariant
                i <= chunk@.len(),
                self.sent == 0,
                self.step == DrainStep::Read,
                !self.ended,
                self.stream@ == before,
                self.logged@ == logged,
                self.line@ == line_of(tail(before + chunk@.take(i as int))),
                logged + line_views(self.ready@) == completed_lines(before + chunk@.take(i as int)),
            decreases chunk@.len() - i,
        {
            let ghost seen = before + chunk@.take(i as int);
            let ghost next = before + chunk@.take(i + 1);
            assert(next.drop_last() =~= seen);
            assert(next.last() == chunk@[i as int]);
            let ended = self.line.push(chunk[i]);
            if ended {
                let mut line = OutputLine::default();
                core::mem::swap(&mut self.line, &mut line);
                let ghost earlier = self.ready@;
                self.ready.push(line);
                assert(line_views(self.ready@) =~= line_views(earlier).push(line@));
                assert(completed_lines(next) =~= completed_lines(seen).push(line@));
                assert(logged + line_views(self.ready@) =~= (logged + line_views(earlier)).push(
                    line@,
                ));
            } else {
                proof {
                    lines_grow_byte_by_byte(tail(seen), chunk@[i as int]);
                }
            }
            i = i + 1;
        }
        assert(chunk@.take(chunk@.len() as int) =~= chunk@);
        self.stream = Ghost(before + chunk@);
        assert(line_views(self.ready@).skip(0) =~= line_views(self.ready@));
    }

    /// Moves the unended last line, unless it is empty, to the lines to log.
    fn close(&mut self)
        requires
            old(self).well_formed(),
            old(self).step == DrainStep::Read,
        ensures
            final(self).sent == 0,
            final(self).step == DrainStep::Read,
            final(self)@.stream == old(self)@.stream,
            final(self)@.logged == old(self)@.logged,
            final(self)@.ended,
            final(self)@.logged + final(self)@.ready == all_lines(final(self)@.stream),
    {
        self.ready = Vec::new();
        self.sent = 0;
        self.ended = true;
        if self.line.bytes.len() > 0 {
            let mut line = OutputLine::default();
            core::mem::swap(&mut self.line, &mut line);
            self.ready.push(line);
            assert(line_views(self.ready@).skip(0) =~= seq![line@]);
            assert(self.logged@ + seq![line@] =~= self.logged@.push(line@));
        } else {
            assert(line_views(self.ready@).skip(0) =~= Seq::<LineView>::empty());
            assert(self.logged@ + Seq::<LineView>::empty() =~= self.logged@);
        }
    }

    /// Takes the reply to the current step.
    pub fn next(&mut self, event: DrainEvent)
        requires
            old(self).well_formed(),
        ensures
            final(self).well_formed(),
            final(self)@ == drained(old(self)@, event),
    {
        let ghost before = self@;
        match (self.step, event) {
            (DrainStep::Read, DrainEvent::Received(chunk)) => {
                if chunk.len() == 0 {
                    self.close();
                    assert(before.stream + chunk@ =~= before.stream);
                } else {
                    self.receive(&chunk);
                }
                assert(self@.ready =~= (self@.logged + self@.ready).skip(before.logged.len() as int));
                self.settle();
            },
            (DrainStep::Read, DrainEvent::ReadFailed) => {
                self.step = DrainStep::Finished(Err(CapsuleAllocationUnavailable::Runtime));
            },
            (DrainStep::Log, DrainEvent::Logged) => {
                proof {
                    self.logged@ = self.logged@.push(before.ready[0]);
                }
                assert(before.ready.len() == self.ready.len() - self.sent);
                assert(before.ready.len() > 0);
                self.sent = self.sent + 1;
                assert(self@.ready =~= before.ready.skip(1));
                assert(self@.logged + self@.ready =~= before.logged + before.ready);
                self.settle();
            },
            (DrainStep::Log, DrainEvent::LogFailed(error)) => {
                self.step = DrainStep::Finished(Err(error));
            },
            _ => {},
        }
    }
}

/// No reply makes a drain lose, repeat or reorder a line.
pub proof fn drain_keeps_every_line(events: Seq<DrainEvent>)
    ensures
        drain_invariant(drain_run(events)),
    decreases events.len(),
{
    if events.len() == 0 {
        assert(initial_drain().logged + initial_drain().ready =~= completed_lines(Seq::empty()));
    } else {
        let before = drain_run(events.drop_last());
        drain_keeps_every_line(events.drop_last());
        match (before.step, events.last()) {
            (DrainStep::Read, DrainEvent::Received(chunk)) => {
                let after = drained(before, events.last());
                assert(before.logged + before.ready =~= before.logged);
                if chunk@.len() == 0 {
                    assert(after.stream =~= before.stream);
                } else {
                    completed_lines_only_grow(before.stream, chunk@);
                }
                let lines = if after.ended {
                    all_lines(after.stream)
                } else {
                    completed_lines(after.stream)
                };
                assert(lines.take(before.logged.len() as int) =~= before.logged);
                assert(after.logged + after.ready =~= lines);
            },
            (DrainStep::Log, DrainEvent::Logged) => {
                let after = drained(before, events.last());
                assert(after.logged + after.ready =~= before.logged + before.ready);
            },
            _ => {},
        }
    }
}

/// A drain that finishes well has logged exactly the lines of what it read,
/// however the stream was cut into chunks.
pub proof fn chunks_do_not_change_the_lines(events: Seq<DrainEvent>)
    requires
        drain_run(events).step == DrainStep::Finished(Ok(())),
    ensures
        drain_run(events).logged == all_lines(drain_run(events).stream),
{
    drain_keeps_every_line(events);
    let last = drain_run(events);
    assert(last.logged + last.ready =~= last.logged);
}

/// What more of a stream brings leaves the lines before it as they are.
pub proof fn completed_lines_only_grow(stream: Seq<u8>, more: Seq<u8>)
    ensures
        completed_lines(stream).len() <= completed_lines(stream + more).len(),
        completed_lines(stream + more).take(completed_lines(stream).len() as int)
            == completed_lines(stream),
    decreases more.len(),
{
    if more.len() == 0 {
        assert(stream + more =~= stream);
        assert(completed_lines(stream).take(completed_lines(stream).len() as int)
            =~= completed_lines(stream));
    } else {
        completed_lines_only_grow(stream, more.drop_last());
        let count = completed_lines(stream).len() as int;
        let before = completed_lines(stream + more.drop_last());
        let after = completed_lines(stream + more);
        assert((stream + more).drop_last() =~= stream + more.drop_last());
        assert(after.take(before.len() as int) =~= before);
        assert(after.take(count) =~= before.take(count));
    }
}

/// The stretches put together again, each with its newline behind it.
pub open spec fn rejoined(segments: Seq<Seq<u8>>) -> Seq<u8>
    decreases segments.len(),
{
    if segments.len() == 0 {
        Seq::empty()
    } else {
        rejoined(segments.drop_last()) + segments.last().push(NEWLINE)
    }
}

/// Cutting a stream into lines loses no byte of it, and no stretch holds a
/// newline.
pub proof fn segments_rejoin_to_the_stream(stream: Seq<u8>)
    ensures
        rejoined(completed(stream)) + tail(stream) == stream,
        !tail(stream).contains(NEWLINE),
        forall|i: int|
            0 <= i < completed(stream).len() ==> !(#[trigger] completed(stream)[i]).contains(
                NEWLINE,
            ),
    decreases stream.len(),
{
    if stream.len() > 0 {
        let front = stream.drop_last();
        segments_rejoin_to_the_stream(front);
        assert(front.push(stream.last()) =~= stream);
        if stream.last() == NEWLINE {
            let segments = completed(stream);
            assert(segments.drop_last() =~= completed(front));
            assert(rejoined(segments) + tail(stream) =~= stream);
        } else {
            assert(rejoined(completed(stream)) + tail(stream) =~= stream);
            assert forall|i: int| 0 <= i < tail(stream).len() implies tail(stream)[i]
                != NEWLINE by {
                if i < tail(front).len() {
                    assert(tail(front).contains(tail(front)[i]));
                }
            }
        }
    } else {
        assert(rejoined(completed(stream)) + tail(stream) =~= stream);
    }
}

/// A line that has taken the bytes of a stretch one after the other is the line
/// of that stretch: it keeps the first 8192 of them in order, and is marked
/// exactly if there were more.  A newline ends it and changes nothing.
pub proof fn lines_grow_byte_by_byte(stretch: Seq<u8>, byte: u8)
    ensures
        byte != 0x0a ==> with_byte(line_of(stretch), byte) == line_of(stretch.push(byte)),
        byte == 0x0a ==> with_byte(line_of(stretch), byte) == line_of(stretch),
        line_of(stretch).overflow == (stretch.len() > 8192),
        line_of(stretch).bytes.len() == (if stretch.len() <= 8192 {
            stretch.len()
        } else {
            8192
        }),
        forall|i: int|
            0 <= i < line_of(stretch).bytes.len() ==> #[trigger] line_of(stretch).bytes[i]
                == stretch[i],
{
    let longer = stretch.push(byte);
    assert(longer.take(MAX_LINE_BYTES as int) =~= stretch.take(MAX_LINE_BYTES as int)
        || stretch.len() < MAX_LINE_BYTES);
    assert(stretch.take(stretch.len() as int) =~= stretch);
    if byte != NEWLINE {
        assert(with_byte(line_of(stretch), byte).bytes =~= line_of(longer).bytes);
    }
}

/// A line of output as it can be read.
#[derive(Debug, PartialEq, Eq)]
pub enum ReadableLine {
    /// Bytes of the line were dropped, so none of it is shown.
    Oversized,
    /// The text of the line, still to be made safe.
    Text(String),
}

/// A line of output that may be shown.
#[derive(Debug, PartialEq, Eq)]
pub enum SafeLine {
    Oversized,
    /// The text of the line after everything to be redacted has left it.
    Text(String),
}

/// A line that may be shown, made of one that can be read and of what is left
/// of its text once everything to be redacted has left it.
pub open spec fn made_safe(readable: ReadableLine, redacted: String) -> SafeLine {
    match readable {
        ReadableLine::Oversized => SafeLine::Oversized,
        ReadableLine::Text(_) => SafeLine::Text(redacted),
    }
}

impl ReadableLine {
    /// The line with its text replaced by what redacting has left of it; an
    /// oversized line has no text.
    pub fn safe(self, redacted: String) -> (line: SafeLine)
        ensures
            line == made_safe(self, redacted),
    {
        match self {
            ReadableLine::Oversized => SafeLine::Oversized,
            ReadableLine::Text(_) => SafeLine::Text(redacted),
        }
    }
}

/// What a line reads as before anything is redacted, if it is shown at all.
pub open spec fn readable_text(line: LineView) -> Option<Seq<char>> {
    if line.overflow {
        None
    } else {
        Some(lossy_decoding(line.bytes))
    }
}

/// This is how a line reads: not at all if bytes of it were dropped, else as its
/// bytes decode.
pub open spec fn reads_as(line: LineView, readable: ReadableLine) -> bool {
    &&& readable is Text == readable_text(line) is Some
    &&& readable is Text ==> readable->Text_0@ == readable_text(line)->0
    &&& readable is Text && valid_utf8(line.bytes) ==> readable->Text_0@ == decode_utf8(line.bytes)
}

/// The text of a safe line.
pub open spec fn safe_text(line: SafeLine) -> Seq<char> {
    match line {
        SafeLine::Oversized => "[oversized output line omitted]"@,
        SafeLine::Text(text) => text@,
    }
}

/// A line of output as it is logged.
pub open spec fn rendered(phase: Seq<char>, text: Seq<char>) -> Seq<char> {
    "["@ + phase + "] "@ + flattened(text)
}

/// The entry that is logged in place of the first line behind the budget.
pub open spec fn limit_notice(phase: Seq<char>) -> Seq<char> {
    "["@ + phase + "] [output limit reached; remaining output is drained]"@
}

/// What is logged of a line when this much output has been counted before it.
pub open spec fn log_entry(phase: Seq<char>, counted: nat, line: Seq<char>) -> Option<Seq<char>> {
    if counted >= MAX_OUTPUT_BYTES {
        None
    } else if counted + encode_utf8(line).len() >= MAX_OUTPUT_BYTES {
        Some(limit_notice(phase))
    } else {
        Some(line)
    }
}

/// The output counted once a line has been added.
pub open spec fn counted_with(counted: nat, line: Seq<char>) -> nat {
    if counted + encode_utf8(line).len() >= MAX_OUTPUT_BYTES {
        MAX_OUTPUT_BYTES as nat
    } else {
        counted + encode_utf8(line).len()
    }
}

/// The texts that are redacted from the output of a hook, the name of the phase
/// that stands before every line, and the bytes counted so far.
#[verifier::ext_equal]
pub struct OutputView {
    pub redacted: Seq<Seq<char>>,
    pub phase: Seq<char>,
    pub counted: nat,
}

/// The views of some texts.
pub open spec fn texts(strings: Seq<String>) -> Seq<Seq<char>> {
    strings.map_values(|text: String| text@)
}

/// The output of a hook before its first line.
pub open spec fn output_of(request: HookRequest) -> OutputView {
    OutputView {
        redacted: texts(request.redactions@),
        phase: phase_name(request.phase)@,
        counted: 0,
    }
}

/// The output of a hook once it has taken a line.
pub open spec fn counting(output: OutputView, line: SafeLine) -> OutputView {
    OutputView {
        counted: counted_with(output.counted, rendered(output.phase, safe_text(line))),
        ..output
    }
}

/// What the output of a hook logs of a line.
pub open spec fn entry_of(output: OutputView, line: SafeLine) -> Option<Seq<char>> {
    log_entry(output.phase, output.counted, rendered(output.phase, safe_text(line)))
}

/// The output of one hook, both of its pipes together.
#[derive(Debug)]
pub struct HookOutput {
    redactions: Vec<String>,
    phase: &'static str,
    bytes: usize,
}

impl View for HookOutput {
    type V = OutputView;

    closed spec fn view(&self) -> OutputView {
        OutputView {
            redacted: texts(self.redactions@),
            phase: self.phase@,
            counted: self.bytes as nat,
        }
    }
}

impl HookOutput {
    pub fn new(redactions: Vec<String>, phase: &'static str) -> (output: Self)
        ensures
            output@ == (OutputView {
                redacted: texts(redactions@),
                phase: phase@,
                counted: 0,
            }),
    {
        HookOutput { redactions, phase, bytes: 0 }
    }

    /// The output of the hook that a run asks for.
    pub fn of(request: &HookRequest) -> (output: Self)
        ensures
            output@ == output_of(*request),
    {
        let mut redactions: Vec<String> = Vec::new();
        let mut i: usize = 0;
        while i < request.redactions.len()
            invariant
                i <= request.redactions@.len(),
                texts(redactions@) == texts(request.redactions@.take(i as int)),
            decreases request.redactions@.len() - i,
        {
            let ghost before = redactions@;
            let text = request.redactions[i].clone();
            redactions.push(text);
            assert(texts(redactions@) =~= texts(before).push(text@));
            assert(texts(request.redactions@.take(i + 1)) =~= texts(
                request.redactions@.take(i as int),
            ).push(text@));
            i = i + 1;
        }
        assert(request.redactions@.take(i as int) =~= request.redactions@);
        HookOutput::new(redactions, request.phase.name())
    }

    /// The texts that must not stand in any logged line.
    pub fn redactions(&self) -> (redactions: &Vec<String>)
        ensures
            texts(redactions@) == self@.redacted,
    {
        &self.redactions
    }

    /// What a line reads as, before it is made safe.
    pub fn readable(line: &OutputLine) -> (readable: ReadableLine)
        ensures
            reads_as(line@, readable),
    {
        if line.overflow {
            ReadableLine::Oversized
        } else {
            ReadableLine::Text(lossy_text(line.bytes.as_slice()))
        }
    }

    /// Counts a safe line and gives what is logged of it.
    pub fn line(&mut self, line: SafeLine) -> (entry: Option<String>)
        ensures
            final(self)@ == counting(old(self)@, line),
            entry is Some == entry_of(old(self)@, line) is Some,
            entry is Some ==> entry->0@ == entry_of(old(self)@, line)->0,
    {
        let safe = match line {
            SafeLine::Oversized => "[oversized output line omitted]".to_owned(),
            SafeLine::Text(text) => text,
        };
        let flat = flatten(safe.as_str());
        let heading = concatenate("[", self.phase, "] ");
        let text = heading.concat(flat.as_str());
        let length = byte_length(text.as_str());
        let previous = self.bytes;
        let sum = previous.saturating_add(length);
        self.bytes = if sum < MAX_OUTPUT_BYTES {
            sum
        } else {
            MAX_OUTPUT_BYTES
        };
        if previous >= MAX_OUTPUT_BYTES {
            return None;
        }
        if sum >= MAX_OUTPUT_BYTES {
            return Some(
                concatenate(
                    "[",
                    self.phase,
                    "] [output limit reached; remaining output is drained]",
                ),
            );
        }
        Some(text)
    }
}

/// The bytes of some lines together.
pub open spec fn total_bytes(lines: Seq<Seq<char>>) -> nat
    decreases lines.len(),
{
    if lines.len() == 0 {
        0
    } else {
        total_bytes(lines.drop_last()) + encode_utf8(lines.last()).len()
    }
}

/// The output counted by a new hook output once it has taken these lines.
pub open spec fn counted_after(lines: Seq<Seq<char>>) -> nat
    decreases lines.len(),
{
    if lines.len() == 0 {
        0
    } else {
        counted_with(counted_after(lines.drop_last()), lines.last())
    }
}

/// What a new hook output logs of these lines, in order.
pub open spec fn logged_of(phase: Seq<char>, lines: Seq<Seq<char>>) -> Seq<Seq<char>>
    decreases lines.len(),
{
    if lines.len() == 0 {
        Seq::empty()
    } else {
        let before = logged_of(phase, lines.drop_last());
        match log_entry(phase, counted_after(lines.drop_last()), lines.last()) {
            Some(entry) => before.push(entry),
            None => before,
        }
    }
}

/// As long as the lines stay within the budget, all of them are logged.  With
/// the first line that reaches it one notice is logged, and then nothing more,
/// so that the log exceeds the budget by less than that notice.
pub proof fn output_stays_within_the_budget(phase: Seq<char>, lines: Seq<Seq<char>>)
    ensures
        counted_after(lines) == (if total_bytes(lines) < MAX_OUTPUT_BYTES {
            total_bytes(lines)
        } else {
            MAX_OUTPUT_BYTES as nat
        }),
        total_bytes(lines) < MAX_OUTPUT_BYTES ==> logged_of(phase, lines) == lines,
        total_bytes(lines) >= MAX_OUTPUT_BYTES ==> exists|k: int|
            {
                &&& 0 <= k < lines.len()
                &&& total_bytes(#[trigger] lines.take(k)) < MAX_OUTPUT_BYTES
                &&& total_bytes(lines.take(k + 1)) >= MAX_OUTPUT_BYTES
                &&& logged_of(phase, lines) == lines.take(k).push(limit_notice(phase))
            },
        total_bytes(logged_of(phase, lines)) < MAX_OUTPUT_BYTES + encode_utf8(
            limit_notice(phase),
        ).len(),
    decreases lines.len(),
{
    if lines.len() > 0 {
        let front = lines.drop_last();
        output_stays_within_the_budget(phase, front);
        assert(front.push(lines.last()) =~= lines);
        assert(front.push(limit_notice(phase)).drop_last() =~= front);
        if total_bytes(front) >= MAX_OUTPUT_BYTES {
            let k = choose|k: int|
                {
                    &&& 0 <= k < front.len()
                    &&& total_bytes(#[trigger] front.take(k)) < MAX_OUTPUT_BYTES
                    &&& total_bytes(front.take(k + 1)) >= MAX_OUTPUT_BYTES
                    &&& logged_of(phase, front) == front.take(k).push(limit_notice(phase))
                };
            assert(lines.take(k) =~= front.take(k));
            assert(lines.take(k + 1) =~= front.take(k + 1));
        } else if total_bytes(lines) >= MAX_OUTPUT_BYTES {
            let k = front.len() as int;
            assert(lines.take(k) =~= front);
            assert(lines.take(k + 1) =~= lines);
        }
    } else {
        assert(logged_of(phase, lines) =~= lines);
    }
}

/// What is logged of a line within the budget, once everything to be redacted
/// has left its text.
pub open spec fn shown(
    phase: Seq<char>,
    line: LineView,
    redacted: spec_fn(Seq<char>) -> Seq<char>,
) -> Seq<char> {
    match readable_text(line) {
        Some(text) => rendered(phase, redacted(text)),
        None => rendered(phase, "[oversized output line omitted]"@),
    }
}

/// What stands in the log of a line within the budget is what `shown` says of
/// it, if its text was replaced by what redacting makes of it.
pub proof fn safe_lines_are_shown(
    phase: Seq<char>,
    line: LineView,
    redacted: spec_fn(Seq<char>) -> Seq<char>,
    readable: ReadableLine,
    text: String,
)
    requires
        readable is Text == readable_text(line) is Some,
        readable is Text ==> readable->Text_0@ == readable_text(line)->0,
        readable is Text ==> text@ == redacted(readable->Text_0@),
    ensures
        rendered(phase, safe_text(made_safe(readable, text))) == shown(phase, line, redacted),
{
}

/// A line is shown whole or not at all: what is redacted is looked for in all
/// of its text, and of a line that is too long nothing is shown, so that two of
/// them look the same whatever they hold.
pub proof fn lines_are_shown_whole_or_not_at_all(
    phase: Seq<char>,
    segment: Seq<u8>,
    other: Seq<u8>,
    redacted: spec_fn(Seq<char>) -> Seq<char>,
)
    ensures
        segment.len() <= MAX_LINE_BYTES ==> shown(phase, line_of(segment), redacted) == rendered(
            phase,
            redacted(lossy_decoding(segment)),
        ),
        segment.len() > MAX_LINE_BYTES ==> readable_text(line_of(segment)) is None,
        segment.len() > MAX_LINE_BYTES && other.len() > MAX_LINE_BYTES ==> shown(
            phase,
            line_of(segment),
            redacted,
        ) == shown(phase, line_of(other), redacted),
{
}

/// Whatever a hook prints, each entry of its log is a single line: it holds no
/// control character but tabs.
pub proof fn entries_are_single_lines(phase: Seq<char>, counted: nat, text: Seq<char>, i: int)
    requires
        forall|j: int| 0 <= j < phase.len() ==> !control(#[trigger] phase[j]),
        log_entry(phase, counted, rendered(phase, text)) is Some,
        0 <= i < log_entry(phase, counted, rendered(phase, text))->0.len(),
    ensures
        control(log_entry(phase, counted, rendered(phase, text))->0[i]) ==> log_entry(
            phase,
            counted,
            rendered(phase, text),
        )->0[i] == '\t',
{
    reveal_strlit("[");
    reveal_strlit("] ");
    reveal_strlit("] [output limit reached; remaining output is drained]");
    flattened_text_is_one_line(text);
    let heading = "["@ + phase + "] "@;
    let line = rendered(phase, text);
    let notice = limit_notice(phase);
    let closing = "] [output limit reached; remaining output is drained]"@;
    if log_entry(phase, counted, line)->0 == notice {
        if i >= 1 + phase.len() {
            assert(notice[i] == closing[i - 1 - phase.len()]);
        }
    } else {
        if i >= heading.len() {
            assert(line[i] == flattened(text)[i - heading.len()]);
        }
    }
}

} // verus!
