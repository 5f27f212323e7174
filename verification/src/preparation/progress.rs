//! Progress of a preparation, as the ledger of the run records it.
use crate::failure::CapsuleAllocationUnavailable;
use crate::run_id::RunId;
use vstd::prelude::*;

verus! {

/// Where a line of the log comes from.
#[derive(Clone, Copy, Debug, PartialEq, Eq, Structural)]
pub enum SafeLogStream {
    System,
}

/// A line of the log as it goes to the ledger.
#[derive(Debug, PartialEq, Eq)]
pub struct SafeLogEvent {
    /// The execution that the line belongs to; none for the run itself.
    pub execution: Option<String>,
    pub timestamp: String,
    pub stream: SafeLogStream,
    pub line: String,
}

/// Where the progress of a preparation goes: to the ledger of its run.
#[derive(Debug)]
pub struct LedgerPreparationProgress {
    pub run_id: RunId,
}

/// A line of progress being logged: what the host does next for it.
#[derive(Debug, PartialEq, Eq)]
pub enum ProgressLog<'a> {
    /// Check whether this line may stand in a log.
    Check { run_id: &'a RunId, timestamp: String, line: &'a str },
    /// Append the event, and nothing else, to the ledger of this run.
    Append { run_id: &'a RunId, event: SafeLogEvent },
    Settled(Result<(), CapsuleAllocationUnavailable>),
}

/// A reply of the host to a line of progress.
#[derive(Debug, PartialEq, Eq)]
pub enum ProgressEvent {
    /// The line as it may stand in a log, if it may.
    Checked(Option<String>),
    Appended(bool),
}

pub open spec fn progress_next<'a>(step: ProgressLog<'a>, event: ProgressEvent) -> ProgressLog<'a> {
    match (step, event) {
        (ProgressLog::Check { run_id, timestamp, .. }, ProgressEvent::Checked(line)) => match line {
            Some(line) => ProgressLog::Append {
                run_id,
                event: SafeLogEvent {
                    execution: None,
                    timestamp,
                    stream: SafeLogStream::System,
                    line,
                },
            },
            None => ProgressLog::Settled(Err(CapsuleAllocationUnavailable::Runtime)),
        },
        (ProgressLog::Append { .. }, ProgressEvent::Appended(done)) => if done {
            ProgressLog::Settled(Ok(()))
        } else {
            ProgressLog::Settled(Err(CapsuleAllocationUnavailable::Runtime))
        },
        _ => step,
    }
}

/// The first step of a line that is logged for a run at the given time.
pub open spec fn progress_start<'a>(
    run_id: &'a RunId,
    timestamp: String,
    line: &'a str,
) -> ProgressLog<'a> {
    ProgressLog::Check { run_id, timestamp, line }
}

impl LedgerPreparationProgress {
    /// Starts to log a line at the given time.
    pub fn log<'a>(&'a self, timestamp: String, line: &'a str) -> (step: ProgressLog<'a>)
        ensures
            step == progress_start(&self.run_id, timestamp, line),
    {
        ProgressLog::Check { run_id: &self.run_id, timestamp, line }
    }
}

impl<'a> ProgressLog<'a> {
    /// Takes the reply to the current step.
    pub fn next(self, event: ProgressEvent) -> (step: Self)
        ensures
            step == progress_next(self, event),
    {
        match (self, event) {
            (
                ProgressLog::Check { run_id, timestamp, .. },
                ProgressEvent::Checked(line),
            ) => match line {
                Some(line) => ProgressLog::Append {
                    run_id,
                    event: SafeLogEvent {
                        execution: None,
                        timestamp,
                        stream: SafeLogStream::System,
                        line,
                    },
                },
                None => ProgressLog::Settled(Err(CapsuleAllocationUnavailable::Runtime)),
            },
            (ProgressLog::Append { .. }, ProgressEvent::Appended(done)) => if done {
                ProgressLog::Settled(Ok(()))
            } else {
                ProgressLog::Settled(Err(CapsuleAllocationUnavailable::Runtime))
            },
            (step, _) => step,
        }
    }
}

} // verus!
