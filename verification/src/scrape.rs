//! What came of running the fetch command inside one container, and which of
//! its output counts.

use crate::text::{decode_lossy, line_views, lines_of, split_lines, utf8_lossy};
use vstd::prelude::*;

verus! {

/// One chunk of what a command wrote, with the stream it was written to.
#[derive(Clone, Debug)]
pub enum LogChunk {
    StdErr { message: Vec<u8> },
    StdOut { message: Vec<u8> },
    StdIn { message: Vec<u8> },
    Console { message: Vec<u8> },
}

/// How starting the command went.
#[derive(Clone, Debug)]
pub enum StartOutcome {
    /// The runtime refused to start it.
    Failed,
    /// It was started with no output stream attached.
    Detached,
    /// It was started, and reading its output to the end failed.
    StreamFailed,
    /// It was started, and these chunks were read until its output ended.
    Attached { chunks: Vec<LogChunk> },
}

/// What the runtime said of the command after its output had ended.
#[derive(Clone, Debug)]
pub enum InspectOutcome {
    /// The runtime did not answer.
    Failed,
    /// The runtime answered, with an exit status or without one.
    Inspected { exit_code: Option<i64> },
}

/// One attempt to scrape one container.
#[derive(Clone, Debug)]
pub enum ScrapeAttempt {
    /// The command could not be registered; nothing was started.
    CreateFailed,
    /// The command was registered, then started and inspected.
    Ran { start: StartOutcome, inspect: InspectOutcome },
}

/// The lines of a chunk: those of its text, decoded leniently, where it was
/// written to standard output, and none otherwise.
pub open spec fn chunk_lines(chunk: LogChunk) -> Seq<Seq<char>> {
    match chunk {
        LogChunk::StdOut { message } => lines_of(utf8_lossy(message@)),
        _ => Seq::empty(),
    }
}

/// The lines that a start yields: those of the first chunk read. Nothing is
/// yielded unless the command ran attached and at least one chunk was read.
pub open spec fn output_lines(start: StartOutcome) -> Option<Seq<Seq<char>>> {
    match start {
        StartOutcome::Attached { chunks } => if chunks@.len() > 0 {
            Some(chunk_lines(chunks@[0]))
        } else {
            None
        },
        _ => None,
    }
}

/// The exit status that decides: the one reported, and -1 where none was.
pub open spec fn exit_status(inspect: InspectOutcome) -> i64 {
    match inspect {
        InspectOutcome::Inspected { exit_code: Some(code) } => code,
        _ => -1i64,
    }
}

/// The lines that an attempt contributes: its output lines, if the command
/// left with status zero and there is at least one line.
pub open spec fn accepted_lines(attempt: ScrapeAttempt) -> Option<Seq<Seq<char>>> {
    match attempt {
        ScrapeAttempt::CreateFailed => None,
        ScrapeAttempt::Ran { start, inspect } => match output_lines(start) {
            Some(lines) => if exit_status(inspect) == 0 && lines.len() > 0 {
                Some(lines)
            } else {
                None
            },
            None => None,
        },
    }
}

/// Whatever was written, a command that did not leave with status zero
/// contributes nothing.
pub proof fn failed_command_is_rejected(start: StartOutcome, inspect: InspectOutcome)
    requires
        exit_status(inspect) != 0,
    ensures
        accepted_lines(ScrapeAttempt::Ran { start, inspect }) is None,
{
}

/// Whatever its exit status, a command that yielded no line contributes nothing.
pub proof fn silent_command_is_rejected(start: StartOutcome, inspect: InspectOutcome)
    requires
        output_lines(start) is None || output_lines(start) == Some(Seq::<Seq<char>>::empty()),
    ensures
        accepted_lines(ScrapeAttempt::Ran { start, inspect }) is None,
{
}

/// Whether `lines` are the views of `found`, or both are missing.
pub open spec fn same_lines(found: Option<Vec<String>>, lines: Option<Seq<Seq<char>>>) -> bool {
    match found {
        Some(owned) => lines == Some(line_views(owned@)),
        None => lines is None,
    }
}

/// The lines of one chunk.
pub fn lines_of_chunk(chunk: &LogChunk) -> (lines: Vec<String>)
    ensures
        line_views(lines@) == chunk_lines(*chunk),
{
    match chunk {
        LogChunk::StdOut { message } => {
            let text = decode_lossy(message);
            split_lines(text.as_str())
        },
        _ => {
            let lines: Vec<String> = Vec::new();
            proof {
                assert(line_views(lines@) =~= Seq::<Seq<char>>::empty());
            }
            lines
        },
    }
}

/// The output lines of a started command, if it yielded any.
pub fn collect_output_lines(start: &StartOutcome) -> (lines: Option<Vec<String>>)
    ensures
        same_lines(lines, output_lines(*start)),
{
    match start {
        StartOutcome::Attached { chunks } => {
            if chunks.len() > 0 {
                Some(lines_of_chunk(&chunks[0]))
            } else {
                None
            }
        },
        _ => None,
    }
}

/// The exit status that decides.
pub fn exit_status_of(inspect: &InspectOutcome) -> (code: i64)
    ensures
        code == exit_status(*inspect),
{
    match inspect {
        InspectOutcome::Inspected { exit_code: Some(code) } => *code,
        _ => -1i64,
    }
}

/// The lines that an attempt contributes, if it counts.
pub fn accept(attempt: &ScrapeAttempt) -> (lines: Option<Vec<String>>)
    ensures
        same_lines(lines, accepted_lines(*attempt)),
{
    match attempt {
        ScrapeAttempt::CreateFailed => None,
        ScrapeAttempt::Ran { start, inspect } => {
            let output = collect_output_lines(start);
            let code = exit_status_of(inspect);
            match output {
                Some(lines) => {
                    if code == 0 && lines.len() > 0 {
                        Some(lines)
                    } else {
                        None
                    }
                },
                None => None,
            }
        },
    }
}

} // verus!
