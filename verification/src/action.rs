//! The invocation contract of a bound action.

use vstd::prelude::*;

verus! {

/// An external-effecting operation bound to a command. An action takes the
/// dispatch argument (action-specific, possibly empty) and reports success
/// with its captured output or failure with a detail message. Argument
/// validation is the action's own responsibility; a rejected argument is
/// reported as a failure like any other.
///
/// The engine promises nothing about what an action computes: implementors
/// live outside the verified core (they fork processes, print, block on
/// external tools), and the dispatcher's contract holds whatever an
/// invocation returns.
pub trait Action {
    /// Perform the operation with the given argument, blocking until it
    /// completes.
    fn invoke(&mut self, argument: &str) -> Result<String, String>;
}

} // verus!
