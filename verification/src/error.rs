//! The error taxonomy of a run: why a pipeline could not be established
//! or why it stopped early, and how the consumer's wait on the completion
//! signal is interpreted.

use vstd::prelude::*;

verus! {

/// Why a run failed. `SourceUnavailable` is fatal before any line is
/// produced; `StreamFault` is an I/O fault mid-stream; `ChildExitFault`
/// carries the non-zero status of a spawned command; `SignalBroken` means
/// the producer ended without ever firing the completion signal.
#[derive(Clone, Copy, Debug, PartialEq, Eq, Structural)]
pub enum RunError {
    SourceUnavailable,
    StreamFault,
    ChildExitFault(i32),
    SignalBroken,
}

pub open spec fn message_spec(e: RunError) -> Seq<char> {
    match e {
        RunError::SourceUnavailable => "source is missing or cannot be opened"@,
        RunError::StreamFault => "I/O fault while reading or writing the stream"@,
        RunError::ChildExitFault(_) => "command exited with a non-zero status"@,
        RunError::SignalBroken => "producer ended before the backlog was drained"@,
    }
}

impl RunError {
    /// A human-readable description of the failure.
    pub fn message(&self) -> (r: String)
        ensures
            r@ == message_spec(*self),
    {
        match self {
            RunError::SourceUnavailable => String::from_str("source is missing or cannot be opened"),
            RunError::StreamFault => String::from_str("I/O fault while reading or writing the stream"),
            RunError::ChildExitFault(_) => String::from_str("command exited with a non-zero status"),
            RunError::SignalBroken => String::from_str("producer ended before the backlog was drained"),
        }
    }
}

/// What the consumer's single blocking wait on the completion signal
/// resolved to: the producer fired it, or the channel closed without a
/// value because the producer ended first.
#[derive(Clone, Copy, Debug, PartialEq, Eq, Structural)]
pub enum WaitOutcome {
    Drained,
    ChannelClosed,
}

/// A broken channel is a fatal condition distinct from a normal drain:
/// the producer could not establish even the initial backlog.
pub fn interpret_wait(w: WaitOutcome) -> (r: Result<(), RunError>)
    ensures
        r == (match w {
            WaitOutcome::Drained => Result::<(), RunError>::Ok(()),
            WaitOutcome::ChannelClosed => Result::<(), RunError>::Err(RunError::SignalBroken),
        }),
{
    match w {
        WaitOutcome::Drained => Ok(()),
        WaitOutcome::ChannelClosed => Err(RunError::SignalBroken),
    }
}

} // verus!
