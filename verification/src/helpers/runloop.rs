//! Decisions of the loops that keep a run loop going.
//!
//! A run loop delivers the callbacks of capture and encoding. Each helper
//! here is one turn of a loop around it: given what the caller observed, it
//! says whether to process the run loop once more or to stop, and with which
//! result. The caller measures the time, asks its condition, and runs the
//! run loop.

use vstd::prelude::*;

verus! {

/// Run loop result codes.
#[derive(Debug, Clone, Copy, PartialEq, Eq, Structural)]
pub enum RunLoopResult {
    /// Run loop finished normally
    Finished,
    /// Run loop was stopped
    Stopped,
    /// Run loop timed out
    TimedOut,
    /// A source was handled and returned early
    HandledSource,
}

impl RunLoopResult {
    /// The code that the run loop returns for this result.
    pub open spec fn spec_code(self) -> i32 {
        match self {
            RunLoopResult::Finished => 1,
            RunLoopResult::Stopped => 2,
            RunLoopResult::TimedOut => 3,
            RunLoopResult::HandledSource => 4,
        }
    }

    /// The result for a code; a code that the run loop does not document
    /// counts as finished.
    pub open spec fn of_code(value: i32) -> RunLoopResult {
        if value == 2 {
            RunLoopResult::Stopped
        } else if value == 3 {
            RunLoopResult::TimedOut
        } else if value == 4 {
            RunLoopResult::HandledSource
        } else {
            RunLoopResult::Finished
        }
    }

    /// The code that the run loop returns for this result.
    #[verifier::when_used_as_spec(spec_code)]
    pub fn code(self) -> (code: i32)
        ensures
            code == self.spec_code(),
    {
        match self {
            RunLoopResult::Finished => 1,
            RunLoopResult::Stopped => 2,
            RunLoopResult::TimedOut => 3,
            RunLoopResult::HandledSource => 4,
        }
    }
}

impl From<i32> for RunLoopResult {
    fn from(value: i32) -> (result: Self) {
        if value == 2 {
            RunLoopResult::Stopped
        } else if value == 3 {
            RunLoopResult::TimedOut
        } else if value == 4 {
            RunLoopResult::HandledSource
        } else {
            RunLoopResult::Finished
        }
    }
}

impl vstd::std_specs::convert::FromSpecImpl<i32> for RunLoopResult {
    open spec fn obeys_from_spec() -> bool {
        true
    }

    open spec fn from_spec(value: i32) -> Self {
        RunLoopResult::of_code(value)
    }
}

/// Every result comes back from its own code.
pub proof fn lemma_result_of_its_code(result: RunLoopResult)
    ensures
        RunLoopResult::of_code(result.spec_code()) == result,
        1 <= result.spec_code() <= 4,
{
}

/// How long `run_for_duration` lets the run loop wait for sources in one
/// turn, in milliseconds.
pub const TICK_INTERVAL_MS: u64 = 100;

/// What a loop around the run loop does next.
#[derive(Debug, Clone, Copy, PartialEq, Eq)]
pub enum RunLoopStep<T> {
    /// Process the run loop once, then decide again.
    RunOnce,
    /// Stop, with this result.
    Done(T),
}

/// One turn of running the run loop for a duration: the run loop is
/// processed, for `TICK_INTERVAL_MS` at a time, as long as less than the
/// duration has elapsed. The caller reports the elapsed time to its tick
/// callback after every turn.
pub fn run_for_duration(elapsed_nanos: u128, duration_nanos: u128) -> (step: RunLoopStep<()>)
    ensures
        step == if elapsed_nanos < duration_nanos {
            RunLoopStep::<()>::RunOnce
        } else {
            RunLoopStep::Done(())
        },
{
    if elapsed_nanos < duration_nanos {
        RunLoopStep::RunOnce
    } else {
        RunLoopStep::Done(())
    }
}

/// One turn of running the run loop while a condition is true. The loop
/// is done with `true` once the condition is false, and with `false` once
/// the condition still holds when the timeout, if there is one, has elapsed.
pub fn run_while(condition: bool, elapsed_nanos: u128, timeout_nanos: Option<u128>) -> (step:
    RunLoopStep<bool>)
    ensures
        step == if !condition {
            RunLoopStep::Done(true)
        } else if timeout_nanos matches Some(timeout) && elapsed_nanos >= timeout {
            RunLoopStep::Done(false)
        } else {
            RunLoopStep::RunOnce
        },
{
    if !condition {
        // Condition became false
        return RunLoopStep::Done(true);
    }
    if let Some(timeout) = timeout_nanos {
        if elapsed_nanos >= timeout {
            // Timed out
            return RunLoopStep::Done(false);
        }
    }
    RunLoopStep::RunOnce
}

/// One turn of running the run loop until a value is available. The loop
/// is done with the value once there is one, and with `None` once the
/// timeout has elapsed without one.
pub fn run_until_some<T>(value: Option<T>, elapsed_nanos: u128, timeout_nanos: u128) -> (step:
    RunLoopStep<Option<T>>)
    ensures
        step == match value {
            Some(found) => RunLoopStep::Done(Some(found)),
            None => if elapsed_nanos >= timeout_nanos {
                RunLoopStep::Done(None)
            } else {
                RunLoopStep::RunOnce
            },
        },
{
    match value {
        Some(found) => RunLoopStep::Done(Some(found)),
        None => if elapsed_nanos >= timeout_nanos {
            RunLoopStep::Done(None)
        } else {
            RunLoopStep::RunOnce
        },
    }
}

} // verus!
