use std::collections::BTreeMap;
use zeroshot::environment::hook::{HookPhase, HookRequest};
use zeroshot::environment::output::{
    Drain, DrainEvent, DrainStep, HookOutput, OutputLine, ReadableLine, SafeLine, MAX_LINE_BYTES,
    MAX_OUTPUT_BYTES,
};
use zeroshot::failure::CapsuleAllocationUnavailable;

type Lines = Vec<(Vec<u8>, bool)>;

/// Drains a stream that comes in chunks of one size, and logs every line.
fn drained(stream: &[u8], size: usize) -> (Lines, DrainStep) {
    let mut drain = Drain::new();
    let mut lines = Vec::new();
    let mut chunks = stream.chunks(size);
    loop {
        match drain.step() {
            DrainStep::Read => {
                let chunk = chunks.next().unwrap_or(&[]).to_vec();
                drain.next(DrainEvent::Received(chunk));
            }
            DrainStep::Log => {
                let line = drain.line().unwrap();
                lines.push((line.bytes.clone(), line.overflow));
                drain.next(DrainEvent::Logged);
            }
            finished => return (lines, finished),
        }
    }
}

fn line_of(bytes: &[u8]) -> OutputLine {
    let mut line = OutputLine::default();
    for byte in bytes {
        assert!(!line.push(*byte));
    }
    line
}

#[test]
fn a_newline_ends_a_line_and_is_not_kept() {
    let mut line = OutputLine::default();
    assert!(!line.push(b'a'));
    assert!(line.push(b'\n'));
    assert_eq!(line.bytes, b"a");
    assert!(!line.overflow);
}

#[test]
fn a_line_keeps_its_limit_and_marks_what_is_behind() {
    let mut line = line_of(&vec![b'x'; MAX_LINE_BYTES]);
    assert_eq!(MAX_LINE_BYTES, 8192);
    assert_eq!(line.bytes.len(), 8192);
    assert!(!line.overflow);
    assert!(!line.push(b'y'));
    assert!(line.overflow);
    assert_eq!(line.bytes, vec![b'x'; 8192]);
    assert!(line.push(b'\n'));
    assert!(line.overflow);
}

#[test]
fn lines_do_not_depend_on_the_chunks() {
    let mut stream = b"first\n\nthird\r\n".to_vec();
    stream.extend(vec![b'z'; 9000]);
    stream.extend(b"\nlast");
    let expected: Lines = vec![
        (b"first".to_vec(), false),
        (b"".to_vec(), false),
        (b"third\r".to_vec(), false),
        (vec![b'z'; 8192], true),
        (b"last".to_vec(), false),
    ];
    for size in [1, 2, 3, 7, 4096, 20000] {
        let (lines, step) = drained(&stream, size);
        assert_eq!(lines, expected);
        assert_eq!(step, DrainStep::Finished(Ok(())));
    }
}

#[test]
fn an_empty_last_line_is_not_logged() {
    assert_eq!(drained(b"", 1).0, vec![]);
    assert_eq!(drained(b"a\n", 2).0, vec![(b"a".to_vec(), false)]);
    assert_eq!(drained(b"\n", 1).0, vec![(b"".to_vec(), false)]);
}

#[test]
fn a_failed_read_ends_the_drain_without_the_unended_line() {
    let mut drain = Drain::new();
    drain.next(DrainEvent::Received(b"part".to_vec()));
    assert_eq!(drain.step(), DrainStep::Read);
    drain.next(DrainEvent::ReadFailed);
    assert_eq!(
        drain.step(),
        DrainStep::Finished(Err(CapsuleAllocationUnavailable::Runtime))
    );
    assert!(drain.line().is_none());
}

#[test]
fn a_failed_log_ends_the_drain_with_its_error() {
    let mut drain = Drain::new();
    drain.next(DrainEvent::Received(b"one\ntwo\n".to_vec()));
    assert_eq!(drain.step(), DrainStep::Log);
    drain.next(DrainEvent::Logged);
    assert_eq!(drain.line().unwrap().bytes, b"two");
    drain.next(DrainEvent::LogFailed(
        CapsuleAllocationUnavailable::EnvironmentSetup,
    ));
    let failed = DrainStep::Finished(Err(CapsuleAllocationUnavailable::EnvironmentSetup));
    assert_eq!(drain.step(), failed);
    drain.next(DrainEvent::Received(b"more\n".to_vec()));
    assert_eq!(drain.step(), failed);
}

#[test]
fn a_reply_out_of_turn_changes_nothing() {
    let mut drain = Drain::new();
    drain.next(DrainEvent::Logged);
    assert_eq!(drain.step(), DrainStep::Read);
    drain.next(DrainEvent::Received(b"one\n".to_vec()));
    drain.next(DrainEvent::Received(b"two\n".to_vec()));
    assert_eq!(drain.step(), DrainStep::Log);
    assert_eq!(drain.line().unwrap().bytes, b"one");
}

#[test]
fn lines_are_read_as_text_even_where_they_are_none() {
    assert_eq!(
        HookOutput::readable(&line_of("gr\u{fc}n".as_bytes())),
        ReadableLine::Text("gr\u{fc}n".to_owned())
    );
    assert_eq!(
        HookOutput::readable(&line_of(b"a\xff\xfeb\xe2\x82")),
        ReadableLine::Text("a\u{fffd}\u{fffd}b\u{fffd}".to_owned())
    );
}

#[test]
fn of_an_oversized_line_nothing_is_shown() {
    let mut output = HookOutput::new(Vec::new(), "setup");
    let line = line_of(&vec![b's'; MAX_LINE_BYTES + 1]);
    assert_eq!(HookOutput::readable(&line), ReadableLine::Oversized);
    assert_eq!(ReadableLine::Oversized.safe(String::new()), SafeLine::Oversized);
    assert_eq!(
        output.line(SafeLine::Oversized),
        Some("[setup] [oversized output line omitted]".to_owned())
    );
}

#[test]
fn entries_carry_their_phase_and_are_single_lines() {
    let mut output = HookOutput::new(Vec::new(), "startup");
    assert_eq!(
        output.line(SafeLine::Text("a\u{1b}[0m\tb\r".to_owned())),
        Some("[startup] a [0m\tb ".to_owned())
    );
    assert_eq!(
        output.line(SafeLine::Text(String::new())),
        Some("[startup] ".to_owned())
    );
}

#[test]
fn the_budget_is_announced_once_and_then_silent() {
    let mut output = HookOutput::new(Vec::new(), "setup");
    assert_eq!(MAX_OUTPUT_BYTES, 1_048_576);
    // The heading "[setup] " is eight bytes long.
    let text = "x".repeat(1024 - 8);
    for _ in 0..1023 {
        let entry = output.line(SafeLine::Text(text.clone())).unwrap();
        assert_eq!(entry.len(), 1024);
    }
    let notice = "[setup] [output limit reached; remaining output is drained]";
    assert_eq!(output.line(SafeLine::Text(text.clone())).as_deref(), Some(notice));
    assert_eq!(output.line(SafeLine::Text(text)), None);
    assert_eq!(output.line(SafeLine::Oversized), None);
}

#[test]
fn output_one_byte_below_the_budget_is_logged() {
    let mut output = HookOutput::new(Vec::new(), "setup");
    let text = "x".repeat(MAX_OUTPUT_BYTES - 8 - 1);
    assert_eq!(
        output.line(SafeLine::Text(text.clone())),
        Some(format!("[setup] {}", text))
    );
    assert_eq!(
        output.line(SafeLine::Text(String::new())).as_deref(),
        Some("[setup] [output limit reached; remaining output is drained]")
    );
    assert_eq!(output.line(SafeLine::Text(String::new())), None);
}

#[test]
fn the_budget_counts_bytes_and_not_characters() {
    let mut output = HookOutput::new(Vec::new(), "setup");
    let text = "\u{fc}".repeat(MAX_OUTPUT_BYTES / 2);
    assert_eq!(
        output.line(SafeLine::Text(text)).as_deref(),
        Some("[setup] [output limit reached; remaining output is drained]")
    );
}

#[test]
fn the_text_of_a_line_is_replaced_by_what_redacting_leaves() {
    let readable = ReadableLine::Text("my secret".to_owned());
    assert_eq!(
        readable.safe("my ***".to_owned()),
        SafeLine::Text("my ***".to_owned())
    );
    // Of an oversized line nothing comes back, whatever is handed in.
    assert_eq!(
        ReadableLine::Oversized.safe("left over".to_owned()),
        SafeLine::Oversized
    );
}

#[test]
fn an_output_is_made_for_its_hook() {
    let environment = BTreeMap::new();
    let redactions = vec!["token".to_owned(), "key".to_owned()];
    let request = HookRequest {
        phase: HookPhase::Startup,
        script: Some("true"),
        directory: b"/run",
        environment: &environment,
        redactions: &redactions,
    };
    let mut output = HookOutput::of(&request);
    assert_eq!(output.redactions(), &redactions);
    assert_eq!(
        output.line(SafeLine::Text("up".to_owned())).as_deref(),
        Some("[startup] up")
    );
}
