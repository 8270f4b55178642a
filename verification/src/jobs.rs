//! What a background job reports when asked, and when the status bar starts
//! showing one.

use vstd::prelude::*;

verus! {

/// What a job has to say when asked.
pub enum Poll<T> {
    /// Still going.
    Waiting,
    Done(T),
    /// Stopped on request. Whatever it produced is not worth having.
    Cancelled,
    /// The worker went away without answering — a panic, almost always.
    Lost,
}

/// What the job's answer channel held when it was looked at.
pub enum Received<T> {
    /// The answer.
    Value(T),
    /// Nothing yet; the worker is still holding the sending end.
    Empty,
    /// Nothing, and nobody left to send it.
    Disconnected,
}

/// Collect the answer, if there is one yet.
///
/// A cancelled job reports `Cancelled` as soon as it is asked, without
/// looking at the channel: the answer is being thrown away either way. So the
/// channel need only be read (`received`) when the job is not cancelled.
pub fn poll_job<T>(cancelled: bool, received: Option<Received<T>>) -> (p: Poll<T>)
    requires
        !cancelled ==> received is Some,
    ensures
        cancelled ==> p is Cancelled,
        !cancelled ==> match received {
            Some(Received::Value(v)) => p == Poll::Done(v),
            Some(Received::Empty) => p is Waiting,
            Some(Received::Disconnected) => p is Lost,
            None => false,
        },
{
    if cancelled {
        return Poll::Cancelled;
    }
    match received {
        Some(Received::Value(v)) => Poll::Done(v),
        Some(Received::Empty) => Poll::Waiting,
        Some(Received::Disconnected) => Poll::Lost,
        None => Poll::Lost,
    }
}

/// How long a job runs, in nanoseconds, before the status bar mentions it.
/// Most operations are over by then, and a bar that flashes up and vanishes
/// is noise rather than information.
pub const SHOW_AFTER_NANOS: u128 = 200_000_000;

/// Whether a job that has run this long gets a progress bar.
pub fn shows_progress(elapsed_nanos: u128) -> (b: bool)
    ensures
        b == (elapsed_nanos >= SHOW_AFTER_NANOS),
{
    elapsed_nanos >= SHOW_AFTER_NANOS
}

} // verus!
