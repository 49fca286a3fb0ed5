//! The dispatcher: resolving a textual token and invoking its bound action.
//!
//! A dispatch resolves the token against the catalog, looks the command up
//! in the registry and invokes the bound action with the given argument.
//! An unknown token is reported without any side effect; a command without
//! a binding is a startup defect reported as `MissingHandler`; whatever a
//! bound action reports is passed on as success or failure. The cycle is
//! stateless: nothing persists between dispatches but the registry itself.

use vstd::prelude::*;

use crate::action::Action;
use crate::catalog::find_by_token;
use crate::catalog::spec_find;
use crate::command::CommandName;
use crate::registry::Registry;

verus! {

/// What one dispatch reports back to the operator loop. Every variant is
/// recoverable at the loop: a failed dispatch never ends the process.
#[derive(Debug, PartialEq, Eq)]
pub enum DispatchResult {
    /// The bound action ran and reported success, with its captured output.
    Success(String),
    /// The token matches no catalog entry; nothing was invoked.
    UnknownCommand(String),
    /// The token resolved, but the command has no bound action: a startup
    /// invariant was violated.
    MissingHandler(CommandName),
    /// The bound action ran and reported failure, with its detail.
    ActionFailure(String),
}

/// Classify what a bound action's invocation reported: success keeps its
/// output, failure keeps its detail.
pub fn report_outcome(outcome: Result<String, String>) -> (report: DispatchResult)
    ensures
        outcome matches Ok(output) ==> report == DispatchResult::Success(output),
        outcome matches Err(detail) ==> report == DispatchResult::ActionFailure(detail),
{
    match outcome {
        Ok(output) => DispatchResult::Success(output),
        Err(detail) => DispatchResult::ActionFailure(detail),
    }
}

/// Resolve `token` and invoke its bound action with `argument`.
///
/// An unrecognised token is reported as `UnknownCommand` and no action is
/// invoked: the registry, and every action in it, is left exactly as it
/// was. A resolved command without a binding is reported as
/// `MissingHandler`, again without touching anything. Otherwise the bound
/// action runs once and its report is passed on; only the invoked action's
/// own binding can differ afterwards.
pub fn dispatch<A: Action>(registry: &mut Registry<A>, token: &str, argument: &str) -> (report:
    DispatchResult)
    requires
        old(registry).wf(),
    ensures
        final(registry).wf(),
        spec_find(token@) is None ==> {
            &&& report matches DispatchResult::UnknownCommand(unknown) && unknown@ == token@
            &&& final(registry)@ == old(registry)@
        },
        spec_find(token@) is Some ==> ({
            let id = spec_find(token@)->0;
            &&& !old(registry)@.contains_key(id) ==> {
                &&& report == DispatchResult::MissingHandler(id)
                &&& final(registry)@ == old(registry)@
            }
            &&& old(registry)@.contains_key(id) ==> {
                &&& report is Success || report is ActionFailure
                &&& final(registry)@.dom() == old(registry)@.dom()
                &&& forall|other: CommandName|
                    other != id && old(registry)@.contains_key(other) ==> final(registry)@[other]
                        == old(registry)@[other]
            }
        }),
{
    match find_by_token(token) {
        None => DispatchResult::UnknownCommand(token.to_owned()),
        Some(entry) => {
            match registry.invoke_bound(entry.id, argument) {
                None => DispatchResult::MissingHandler(entry.id),
                Some(outcome) => report_outcome(outcome),
            }
        },
    }
}

} // verus!
