//! What can go wrong on the way to the worker. None of it reaches the code
//! that logs: a command that cannot be delivered is dropped, and at most a
//! note about it is printed.

use vstd::prelude::*;

verus! {

/// Why a command did not reach the worker, or the worker was not started.
#[derive(Clone, Copy, Debug, PartialEq, Eq)]
pub enum TransportFailure {
    /// The lock around the process-wide handle is poisoned, found when the
    /// worker was to be started.
    CorruptedOnInit,
    /// The lock around the process-wide handle is poisoned, found when a
    /// thread looked for its handle.
    Corrupted,
    /// No worker was started yet.
    NotInitialized,
    /// The worker takes no commands any more.
    WorkerDown,
}

/// The note on a failure.
pub open spec fn failure_text(failure: TransportFailure) -> Seq<char> {
    match failure {
        TransportFailure::CorruptedOnInit =>
            "Global artifact-rs logging mutex is corrupted on global init.  This is NOT GOOD."@,
        TransportFailure::Corrupted =>
            "Global logger mutex is corrupted.  Cannot init task-local sender instance."@,
        TransportFailure::NotInitialized => "Global artifact logger not initialized."@,
        TransportFailure::WorkerDown => "Logger task is down, could not send message."@,
    }
}

/// Whether a failure is printed: a lock found poisoned at start always is,
/// the others only where failures are to be reported.
pub open spec fn is_noted(failure: TransportFailure, report_transport_failures: bool) -> bool {
    report_transport_failures || failure is CorruptedOnInit
}

/// The note to print on standard output for `failure`, if any.
pub fn failure_note(failure: TransportFailure, report_transport_failures: bool) -> (note: Option<
    &'static str,
>)
    ensures
        note.is_some() == is_noted(failure, report_transport_failures),
        note matches Some(text) ==> text@ == failure_text(failure),
{
    match failure {
        TransportFailure::CorruptedOnInit => Some(
            "Global artifact-rs logging mutex is corrupted on global init.  This is NOT GOOD.",
        ),
        TransportFailure::Corrupted => if report_transport_failures {
            Some("Global logger mutex is corrupted.  Cannot init task-local sender instance.")
        } else {
            None
        },
        TransportFailure::NotInitialized => if report_transport_failures {
            Some("Global artifact logger not initialized.")
        } else {
            None
        },
        TransportFailure::WorkerDown => if report_transport_failures {
            Some("Logger task is down, could not send message.")
        } else {
            None
        },
    }
}

} // verus!
