//! What the output of a hook is for: every line of it is shown once, in order
//! and as it is, within one budget.
use crate::environment::hook::{HookPhase, HookRequest};
use crate::environment::output::{
    all_lines, completed, completed_lines, counted_with, counting, drained, entry_of, initial_drain,
    limit_notice, line_of, log_entry, made_safe, output_of, readable_text, reads_as, rendered, safe_text,
    tail, DrainEvent, DrainStep, DrainView, LineView, OutputView, ReadableLine, SafeLine,
};
use crate::failure::CapsuleAllocationUnavailable;
use crate::text::{flattening_replaces_controls_alone, lossy_decoding};
use vstd::prelude::*;
use vstd::utf8::*;

verus! {

/// Every stretch that a newline has ended is a line, in the order of the stream,
/// and so is what stands behind the last newline, if anything does.
pub proof fn every_stretch_is_a_line(stream: Seq<u8>, i: int)
    requires
        0 <= i < completed(stream).len(),
    ensures
        completed_lines(stream).len() == completed(stream).len(),
        completed_lines(stream)[i] == line_of(completed(stream)[i]),
        all_lines(stream)[i] == line_of(completed(stream)[i]),
        all_lines(stream).take(completed(stream).len() as int) == completed_lines(stream),
        all_lines(stream).len() == completed(stream).len() + (if tail(stream).len() > 0 {
            1int
        } else {
            0int
        }),
        tail(stream).len() > 0 ==> all_lines(stream).last() == line_of(tail(stream)),
{
    assert(all_lines(stream).take(completed(stream).len() as int) =~= completed_lines(stream));
}

/// A stream without a newline is one line, unless it is empty.
pub proof fn a_stream_without_a_newline_is_one_line(stream: Seq<u8>)
    requires
        !stream.contains(0x0a),
    ensures
        completed(stream).len() == 0,
        tail(stream) == stream,
        stream.len() == 0 ==> all_lines(stream).len() == 0,
        stream.len() > 0 ==> all_lines(stream) == seq![line_of(stream)],
    decreases stream.len(),
{
    if stream.len() > 0 {
        let front = stream.drop_last();
        assert(stream.contains(stream.last()));
        assert forall|i: int| 0 <= i < front.len() implies front[i] != 0x0a by {
            assert(stream.contains(stream[i]));
        }
        a_stream_without_a_newline_is_one_line(front);
        assert(front.push(stream.last()) =~= stream);
        assert(all_lines(stream) =~= seq![line_of(stream)]);
    }
}

/// A drain starts with nothing read and reads on.  Bytes that it gets are added
/// to the stream, no bytes end the stream, and then the next thing is to log a
/// line if one is ready, else to finish if the stream has ended, else to read.
pub proof fn drains_take_what_they_read(state: DrainView, chunk: Vec<u8>)
    requires
        state.step == DrainStep::Read,
    ensures
        ({
            let after = drained(state, DrainEvent::Received(chunk));
            let lines = if chunk@.len() == 0 {
                all_lines(state.stream + chunk@)
            } else {
                completed_lines(state.stream + chunk@)
            };
            &&& after.stream == state.stream + chunk@
            &&& after.ended == (chunk@.len() == 0)
            &&& after.logged == state.logged
            &&& after.ready == lines.skip(state.logged.len() as int)
            &&& after.ready.len() > 0 ==> after.step == DrainStep::Log
            &&& after.ready.len() == 0 && after.ended ==> after.step == DrainStep::Finished(Ok(()))
            &&& after.ready.len() == 0 && !after.ended ==> after.step == DrainStep::Read
        }),
        initial_drain().stream.len() == 0,
        !initial_drain().ended,
        initial_drain().logged.len() == 0,
        initial_drain().ready.len() == 0,
        initial_drain().step == DrainStep::Read,
{
}

/// A line that was logged makes room for the next one, and with the last the
/// drain finishes well if the stream has ended, or reads on.
pub proof fn drains_log_one_line_after_the_other(state: DrainView)
    requires
        state.step == DrainStep::Log,
        state.ready.len() > 0,
    ensures
        ({
            let after = drained(state, DrainEvent::Logged);
            &&& after.logged == state.logged.push(state.ready[0])
            &&& after.ready == state.ready.skip(1)
            &&& after.stream == state.stream
            &&& after.ended == state.ended
            &&& state.ready.len() > 1 ==> after.step == DrainStep::Log
            &&& state.ready.len() == 1 && state.ended ==> after.step == DrainStep::Finished(Ok(()))
            &&& state.ready.len() == 1 && !state.ended ==> after.step == DrainStep::Read
        }),
{
}

/// A read that fails ends a drain as a lost runtime, and a line that cannot be
/// logged ends it with that error; what was logged stays.  A reply that a drain
/// is not waiting for changes nothing, and neither does any once it has finished.
pub proof fn drains_end_with_what_went_wrong(
    state: DrainView,
    event: DrainEvent,
    error: CapsuleAllocationUnavailable,
)
    ensures
        state.step == DrainStep::Read ==> drained(state, DrainEvent::ReadFailed) == (DrainView {
            step: DrainStep::Finished(Err(CapsuleAllocationUnavailable::Runtime)),
            ..state
        }),
        state.step == DrainStep::Log ==> drained(state, DrainEvent::LogFailed(error))
            == (DrainView { step: DrainStep::Finished(Err(error)), ..state }),
        state.step == DrainStep::Read && (event is Logged || event is LogFailed) ==> drained(
            state,
            event,
        ) == state,
        state.step == DrainStep::Log && (event is Received || event is ReadFailed) ==> drained(
            state,
            event,
        ) == state,
        state.step is Finished ==> drained(state, event) == state,
{
}

/// A line of which bytes were dropped is not read at all, and any other is read
/// with all its bytes.
pub proof fn lines_are_read_whole(line: LineView, readable: ReadableLine)
    ensures
        reads_as(line, readable) && line.overflow ==> readable == ReadableLine::Oversized,
        reads_as(line, readable) && !line.overflow ==> readable is Text && readable->Text_0@
            == lossy_decoding(line.bytes),
        reads_as(line, readable) && !line.overflow && valid_utf8(line.bytes)
            ==> readable->Text_0@ == decode_utf8(line.bytes),
        line.overflow ==> readable_text(line) is None,
        !line.overflow ==> readable_text(line) == Some(lossy_decoding(line.bytes)),
{
}

/// What redacting has left of a text is what is shown, and nothing of the text
/// itself; an oversized line shows a remark, whatever is handed in for it.
pub proof fn what_is_redacted_is_not_shown(text: String, redacted: String)
    ensures
        safe_text(made_safe(ReadableLine::Text(text), redacted)) == redacted@,
        made_safe(ReadableLine::Oversized, redacted) == SafeLine::Oversized,
        safe_text(SafeLine::Oversized) == "[oversized output line omitted]"@,
        safe_text(SafeLine::Text(text)) == text@,
{
}

/// An entry is the phase in brackets, a space, and then the text, each character
/// in its place and only control characters other than tabs made spaces.
pub proof fn entries_hold_the_text_in_its_place(phase: Seq<char>, text: Seq<char>, i: int)
    requires
        0 <= i < text.len(),
    ensures
        ({
            let entry = rendered(phase, text);
            let place = phase.len() + 3 + i;
            &&& entry.len() == phase.len() + 3 + text.len()
            &&& entry.take(phase.len() as int + 3) == "["@ + phase + "] "@
            &&& 0x20 <= (text[i] as u32) <= 0x7e || 0xa0 <= (text[i] as u32) ==> entry[place]
                == text[i]
            &&& text[i] == '\t' ==> entry[place] == '\t'
            &&& text[i] != '\t' && ((text[i] as u32) <= 0x1f || 0x7f <= (text[i] as u32) <= 0x9f)
                ==> entry[place] == ' '
        }),
{
    reveal_strlit("[");
    reveal_strlit("] ");
    flattening_replaces_controls_alone(text, i);
    let heading = "["@ + phase + "] "@;
    assert(rendered(phase, text).take(phase.len() as int + 3) =~= heading);
}

/// An empty text is an entry too, of its heading alone, and the notice has the
/// same heading.
pub proof fn entries_have_a_heading(phase: Seq<char>)
    ensures
        rendered(phase, Seq::<char>::empty()) == "["@ + phase + "] "@,
        limit_notice(phase) == "["@ + phase
            + "] [output limit reached; remaining output is drained]"@,
{
    let heading = "["@ + phase + "] "@;
    assert(rendered(phase, Seq::<char>::empty()) =~= heading);
}

/// An output logs a line as it is while all that it has counted with that line
/// stays below 1048576 bytes.  The line that brings it there is replaced by the
/// notice, and from then on nothing is logged; the count never goes beyond.
pub proof fn outputs_count_and_log_together(output: OutputView, line: SafeLine)
    ensures
        ({
            let text = rendered(output.phase, safe_text(line));
            let sum = output.counted + encode_utf8(text).len();
            let after = counting(output, line);
            &&& after.redacted == output.redacted
            &&& after.phase == output.phase
            &&& after.counted == (if sum < 1048576 {
                sum
            } else {
                1048576
            })
            &&& sum < 1048576 ==> entry_of(output, line) == Some(text)
            &&& output.counted < 1048576 && sum >= 1048576 ==> entry_of(output, line) == Some(
                limit_notice(output.phase),
            )
            &&& output.counted >= 1048576 ==> entry_of(output, line) is None
        }),
{
}

/// The same holds of any line and any count.
pub proof fn the_budget_is_one_for_all_lines(phase: Seq<char>, counted: nat, line: Seq<char>)
    ensures
        log_entry(phase, counted, line) is None <==> counted >= 1048576,
        counted + encode_utf8(line).len() < 1048576 <==> counted < 1048576 && counted_with(
            counted,
            line,
        ) < 1048576,
        counted + encode_utf8(line).len() < 1048576 ==> {
            &&& log_entry(phase, counted, line) == Some(line)
            &&& counted_with(counted, line) == counted + encode_utf8(line).len()
        },
        counted + encode_utf8(line).len() >= 1048576 ==> counted_with(counted, line) == 1048576,
{
}

/// The output of a hook knows every text that its request wants redacted and
/// carries the name of its phase; nothing is counted yet.
pub proof fn outputs_are_made_for_their_request(request: HookRequest, i: int)
    requires
        0 <= i < request.redactions@.len(),
    ensures
        output_of(request).redacted.len() == request.redactions@.len(),
        output_of(request).redacted[i] == request.redactions@[i]@,
        output_of(request).counted == 0,
        request.phase == HookPhase::Setup ==> output_of(request).phase == "setup"@,
        request.phase == HookPhase::Startup ==> output_of(request).phase == "startup"@,
{
}

/// An output without anything to redact is made all the same.
pub proof fn outputs_start_with_the_whole_budget(request: HookRequest)
    ensures
        output_of(request).counted == 0,
        output_of(request).redacted.len() == request.redactions@.len(),
        request.phase == HookPhase::Setup ==> output_of(request).phase == "setup"@,
        request.phase == HookPhase::Startup ==> output_of(request).phase == "startup"@,
{
}

} // verus!
