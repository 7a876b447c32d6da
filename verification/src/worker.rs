//! The decision rule of the background reader.
//!
//! For each connection exactly one reader runs beside the foreground
//! loop. Its body is a cycle of one blocking, timeout-bounded read
//! followed by one decision: forward what arrived, idle and retry, or
//! stop. The reads, the channel push and the sleep are I/O and belong
//! to the layer that runs the loop; the decision itself is `worker_step`
//! here, so that what the reader does with every possible outcome is
//! pinned down. A read that times out with nothing is the expected
//! steady state, never an error; a hard I/O failure — the device gone,
//! the handle closed by a disconnect — is the reader's sole signal to
//! exit.

use vstd::prelude::*;

verus! {

/// How many bytes one read asks for unless a caller chooses another
/// chunk size.
pub const DEFAULT_READ_CHUNK_SIZE: usize = 1000;

/// How long the reader idles between attempts that produced nothing,
/// in milliseconds: a throttle on busy-waiting, not a correctness need.
pub const DEFAULT_POLL_INTERVAL_MS: u64 = 10;

/// What one blocking read of the port produced, as classified by the
/// layer that performed it.
#[derive(Clone, Copy, Debug, PartialEq, Eq, Structural)]
pub enum ReadOutcome {
    /// The read returned `count` bytes at the front of the read buffer;
    /// a count of zero carries no data.
    Received { count: usize },
    /// The read timed out before any byte arrived.
    TimedOut,
    /// The read failed hard: the device was removed or the handle was
    /// closed from the foreground.
    Failed,
}

/// What the reader is to do next with an outcome.
#[derive(Clone, Copy, Debug, PartialEq, Eq, Structural)]
pub enum WorkerAction {
    /// Push the first `count` bytes just read onto the channel, then
    /// read again.
    Forward { count: usize },
    /// Nothing arrived: idle briefly, then read again.
    Idle,
    /// Exit the read loop; the worker makes no further pushes.
    Stop,
}

/// The reader's decision rule: forward exactly the bytes that arrived,
/// treat a timeout or an empty read as idle steady state, and stop
/// only on a hard failure.
pub open spec fn spec_worker_step(outcome: ReadOutcome) -> WorkerAction {
    match outcome {
        ReadOutcome::Received { count } => if count > 0 {
            WorkerAction::Forward { count }
        } else {
            WorkerAction::Idle
        },
        ReadOutcome::TimedOut => WorkerAction::Idle,
        ReadOutcome::Failed => WorkerAction::Stop,
    }
}

/// Decides what the reader does after one read attempt.
pub fn worker_step(outcome: ReadOutcome) -> (r: WorkerAction)
    ensures
        r == spec_worker_step(outcome),
{
    match outcome {
        ReadOutcome::Received { count } => {
            if count > 0 {
                WorkerAction::Forward { count }
            } else {
                WorkerAction::Idle
            }
        },
        ReadOutcome::TimedOut => WorkerAction::Idle,
        ReadOutcome::Failed => WorkerAction::Stop,
    }
}

/// The reader never forwards on a failed read, and never stops on a
/// timeout: only data is forwarded, and only a hard failure ends the
/// loop.
pub proof fn lemma_worker_step_total(outcome: ReadOutcome)
    ensures
        spec_worker_step(outcome) is Stop <==> outcome is Failed,
        spec_worker_step(outcome) matches WorkerAction::Forward { count }
            ==> outcome == (ReadOutcome::Received { count }) && count > 0,
{
}

} // verus!
