//! The phases of the application's life and the ways in which it ends.

use vstd::prelude::*;

verus! {

/// Where the application stands in its life.
#[derive(Clone, Copy, Debug, PartialEq, Eq, Hash, Structural)]
pub enum Phase {
    /// The run call has not been made yet.
    NotStarted,
    /// The run call has been made and has not returned.
    Running,
    /// The run call has returned.
    Terminated,
}

/// How the process ends.
#[derive(Clone, Copy, Debug, PartialEq, Eq, Hash, Structural)]
pub enum Outcome {
    /// The run loop returned at shutdown; the process ends normally.
    Exited,
    /// The run loop failed to start; the process emits the failure message
    /// and ends at once with a non-zero status.
    Aborted,
}

/// The text that is emitted when the run loop fails to start.
pub open spec fn failure_text() -> Seq<char> {
    "error while running tauri application"@
}

/// The outcome that follows from what the run call reported.
pub open spec fn outcome_of(run_succeeded: bool) -> Outcome {
    if run_succeeded {
        Outcome::Exited
    } else {
        Outcome::Aborted
    }
}

impl Outcome {
    /// The outcome that follows from what the run call reported: a normal
    /// exit if it succeeded, an abort if it failed.
    pub fn of_run(run_succeeded: bool) -> (outcome: Outcome)
        ensures
            outcome == outcome_of(run_succeeded),
    {
        if run_succeeded {
            Outcome::Exited
        } else {
            Outcome::Aborted
        }
    }

    /// The message to emit before the process ends: the failure message
    /// after a failed start, none after a normal exit.
    pub fn diagnostic(&self) -> (message: Option<&'static str>)
        ensures
            *self == Outcome::Exited ==> message is None,
            *self == Outcome::Aborted ==> message is Some && message.unwrap()@ == failure_text(),
    {
        match self {
            Outcome::Exited => None,
            Outcome::Aborted => Some("error while running tauri application"),
        }
    }
}

} // verus!
