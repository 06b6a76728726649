use vstd::prelude::*;

verus! {

/// How a run of the linter ended, as the operating system reported it.
pub enum ProcessOutcome {
    /// The child process could not be created; carries the system's message.
    SpawnFailed(String),
    /// The child process was created but could not be waited on.
    WaitFailed(String),
    /// The child process terminated; carries its exit code, if it had one
    /// (a process ended by a signal has none).
    Exited(Option<i32>),
}

/// Why a lint run did not succeed.
pub enum ClippyError {
    /// The linter could not be started.
    ProcessSpawnError(String),
    /// The linter was started but waiting on it failed.
    ProcessWaitError(String),
    /// The linter ran to completion and reported failure; carries its raw
    /// exit code.
    LintFailure(Option<i32>),
}

/// An exit status counts as success exactly when the code is zero.
pub open spec fn is_success(code: Option<i32>) -> bool {
    code == Some(0i32)
}

/// The result that a lint run with the given outcome reports.
pub open spec fn spec_finish(outcome: ProcessOutcome) -> Result<(), ClippyError> {
    match outcome {
        ProcessOutcome::SpawnFailed(m) => Err(ClippyError::ProcessSpawnError(m)),
        ProcessOutcome::WaitFailed(m) => Err(ClippyError::ProcessWaitError(m)),
        ProcessOutcome::Exited(code) => if is_success(code) {
            Ok(())
        } else {
            Err(ClippyError::LintFailure(code))
        },
    }
}

/// Turns the outcome of the child process into the result of the run.
pub fn finish(outcome: ProcessOutcome) -> (r: Result<(), ClippyError>)
    ensures
        r == spec_finish(outcome),
{
    match outcome {
        ProcessOutcome::SpawnFailed(m) => Err(ClippyError::ProcessSpawnError(m)),
        ProcessOutcome::WaitFailed(m) => Err(ClippyError::ProcessWaitError(m)),
        ProcessOutcome::Exited(code) => {
            match code {
                Some(c) if c == 0 => Ok(()),
                _ => Err(ClippyError::LintFailure(code)),
            }
        },
    }
}

} // verus!
