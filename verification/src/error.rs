//! Error taxonomy of the build core.
//!
//! Every failure of a build surfaces as one `BuildError`, carrying the class
//! that callers dispatch on (retry policy, exit status), and, where a step
//! failed, the index and kind of that step.

use vstd::prelude::*;

verus! {

/// Classification of a build failure.
///
/// - `Config`: invalid or inconsistent build-time input; never retryable.
/// - `Fatal`: an invariant of the build environment was violated; aborts
///   immediately.
/// - `Transient`: I/O or network failure during a step; a calling layer may
///   re-run the whole build attempt.
/// - `LockContention`: another build of the same target is in progress.
#[derive(Clone, Copy, PartialEq, Eq, Structural, Debug)]
pub enum ErrorClass {
    Config,
    Fatal,
    Transient,
    LockContention,
}

/// A structured build failure: its class, the step it arose from (index into
/// the recipe's step list), and a human-readable message.
#[derive(Debug)]
pub struct BuildError {
    pub class: ErrorClass,
    pub step_index: Option<usize>,
    pub message: String,
}

impl BuildError {
    /// True of an error that may sensibly be retried by an outer layer.
    /// Only transient step failures qualify; configuration and invariant
    /// violations never do.
    pub fn is_retryable(&self) -> (r: bool)
        ensures
            r == (self.class == ErrorClass::Transient),
    {
        match self.class {
            ErrorClass::Transient => true,
            _ => false,
        }
    }
}

/// Exit status for a finished build attempt, as the command-line caller
/// reports it: `0` for success (a fresh build or a cache hit), `1` for any
/// build failure.
pub fn exit_code<T>(outcome: &Result<T, BuildError>) -> (r: i32)
    ensures
        outcome is Ok <==> r == 0,
        outcome is Err <==> r == 1,
{
    match outcome {
        Ok(_) => 0,
        Err(_) => 1,
    }
}

} // verus!
