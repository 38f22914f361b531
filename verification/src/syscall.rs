//! The retry rule for system calls that a signal may interrupt.
use vstd::prelude::*;

verus! {

/// What to do after a system call returned.
#[derive(Debug, Clone, Copy, PartialEq, Eq)]
pub enum CallOutcome {
    /// The call succeeded with this result.
    Done(i32),
    /// The call was interrupted by a signal: make it again.
    Retry,
    /// The call failed: report the error it set.
    Failed,
}

/// What to do after a system call returned `result`: `-1` means failure,
/// and a failure whose error is `EINTR` (`interrupted`) is retried; any other
/// result is the call's success.
pub fn call_outcome(result: i32, interrupted: bool) -> (outcome: CallOutcome)
    ensures
        result != -1 ==> outcome == CallOutcome::Done(result),
        result == -1 && interrupted ==> outcome == CallOutcome::Retry,
        result == -1 && !interrupted ==> outcome == CallOutcome::Failed,
{
    if result != -1 {
        CallOutcome::Done(result)
    } else if interrupted {
        CallOutcome::Retry
    } else {
        CallOutcome::Failed
    }
}

} // verus!
