//! Mapping the external engine's fate to the program's own result.
//!
//! The launcher reports one of three things: the engine could not be
//! started, the started engine could not be waited on, or the engine ran to
//! completion with some exit status. Only the first two are failures here:
//! by design the program treats "the engine ran and returned" as success
//! and does not look at the engine's own exit code.

use vstd::prelude::*;
use vstd::string::StringExecFns;

verus! {

/// What became of the one attempt to run the external engine. The `String`
/// payloads carry the launcher's rendering of the underlying OS error.
#[derive(Debug, PartialEq, Eq)]
pub enum EngineOutcome {
    /// The engine executable could not be started at all.
    LaunchFailure(String),
    /// The engine started but its process could not be waited on.
    WaitFailure(String),
    /// The engine ran to completion; the exit code is `None` when the
    /// process was ended by a signal instead of exiting.
    Exited(Option<i32>),
}

/// A failure of the run itself, after the command line parsed.
#[derive(Debug, PartialEq, Eq)]
pub enum RunError {
    /// The engine could not be launched.
    Launch(String),
    /// The engine could not be waited on.
    Wait(String),
}

impl RunError {
    /// The human-readable report for this failure.
    pub open spec fn spec_message(self) -> Seq<char> {
        match self {
            RunError::Launch(e) => "failed to launch the engine: "@ + e@,
            RunError::Wait(e) => "failed to wait on the engine: "@ + e@,
        }
    }

    /// Render the failure for the caller.
    pub fn message(&self) -> (r: String)
        ensures
            r@ == self.spec_message(),
    {
        match self {
            RunError::Launch(e) => String::from_str("failed to launch the engine: ").concat(
                e.as_str(),
            ),
            RunError::Wait(e) => String::from_str("failed to wait on the engine: ").concat(
                e.as_str(),
            ),
        }
    }
}

/// Judge the engine's outcome. A launch or wait failure is the program's
/// failure, carrying the OS error onward; an engine that ran to completion
/// is success whatever its own exit status said — that exit status is
/// deliberately not consulted.
pub fn judge_outcome(outcome: EngineOutcome) -> (r: Result<(), RunError>)
    ensures
        match outcome {
            EngineOutcome::LaunchFailure(e) => r == Err::<(), RunError>(RunError::Launch(e)),
            EngineOutcome::WaitFailure(e) => r == Err::<(), RunError>(RunError::Wait(e)),
            EngineOutcome::Exited(_) => r == Ok::<(), RunError>(()),
        },
{
    match outcome {
        EngineOutcome::LaunchFailure(e) => Err(RunError::Launch(e)),
        EngineOutcome::WaitFailure(e) => Err(RunError::Wait(e)),
        EngineOutcome::Exited(_) => Ok(()),
    }
}

} // verus!
