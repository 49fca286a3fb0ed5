//! The registry: the binding of each command to its action.
//!
//! A registry is built once during startup — `new` gives an empty one and
//! `register` binds one command at a time, refusing duplicates — and is
//! read-only afterwards. Its model is the map from bound commands to their
//! actions. `missing_binding` is the startup self-check: it names a command
//! without an action, and only a registry it clears should enter the
//! dispatch loop.

use vstd::prelude::*;

use crate::action::Action;
use crate::command::COMMAND_COUNT;
use crate::command::CommandName;
use crate::command::all_commands;
use crate::command::id_index;
use crate::command::lemma_all_commands_complete;
use crate::command::lemma_all_commands_distinct;

verus! {

/// Startup construction failure: the registry refuses to rebind a command
/// that already has an action.
#[derive(Clone, Copy, Debug, PartialEq, Eq, Structural)]
pub enum RegistryError {
    DuplicateRegistration(CommandName),
}

/// The mapping from commands to bound actions, one optional slot per
/// command in catalog order.
pub struct Registry<A> {
    slots: Vec<Option<A>>,
}

impl<A> View for Registry<A> {
    type V = Map<CommandName, A>;

    closed spec fn view(&self) -> Map<CommandName, A> {
        Map::new(
            |id: CommandName| self.slots@[id_index(id)] is Some,
            |id: CommandName| self.slots@[id_index(id)]->0,
        )
    }
}

impl<A> Registry<A> {
    /// Well-formed: one slot per command of the catalog.
    pub closed spec fn wf(&self) -> bool {
        self.slots@.len() == all_commands().len()
    }

    /// An empty registry: no command has a bound action yet.
    pub fn new() -> (registry: Registry<A>)
        ensures
            registry.wf(),
            registry@ == Map::<CommandName, A>::empty(),
    {
        let mut slots: Vec<Option<A>> = Vec::new();
        let mut i: usize = 0;
        while i < COMMAND_COUNT
            invariant
                i <= COMMAND_COUNT,
                slots@.len() == i,
                forall|j: int| 0 <= j < i ==> slots@[j] is None,
            decreases COMMAND_COUNT - i,
        {
            slots.push(None);
            i += 1;
        }
        let registry = Registry { slots };
        proof {
            assert forall|id: CommandName| !(#[trigger] registry@.dom().contains(id)) by {
                lemma_all_commands_complete(id);
            }
            assert(registry@ =~= Map::<CommandName, A>::empty());
        }
        registry
    }

    /// Bind `action` to `id`. Fails with `DuplicateRegistration`, leaving
    /// every binding as it was, when `id` already has an action; otherwise
    /// adds exactly this one binding.
    pub fn register(&mut self, id: CommandName, action: A) -> (outcome: Result<(), RegistryError>)
        requires
            old(self).wf(),
        ensures
            final(self).wf(),
            old(self)@.contains_key(id) ==> {
                &&& outcome == Result::<(), RegistryError>::Err(
                    RegistryError::DuplicateRegistration(id),
                )
                &&& final(self)@ == old(self)@
            },
            !old(self)@.contains_key(id) ==> {
                &&& outcome == Result::<(), RegistryError>::Ok(())
                &&& final(self)@ == old(self)@.insert(id, action)
            },
    {
        proof {
            lemma_all_commands_complete(id);
        }
        let i: usize = id.index();
        if self.slots[i].is_some() {
            Err(RegistryError::DuplicateRegistration(id))
        } else {
            self.slots.set(i, Some(action));
            proof {
                assert forall|other: CommandName| other != id implies id_index(other) != id_index(
                    id,
                ) by {
                    lemma_all_commands_complete(other);
                }
                assert(self@ =~= old(self)@.insert(id, action));
            }
            Ok(())
        }
    }

    /// Whether `id` has a bound action.
    pub fn is_registered(&self, id: CommandName) -> (bound: bool)
        requires
            self.wf(),
        ensures
            bound == self@.contains_key(id),
    {
        proof {
            lemma_all_commands_complete(id);
        }
        let i: usize = id.index();
        self.slots[i].is_some()
    }

    /// Startup self-check: the first command in catalog order that lacks a
    /// bound action, or nothing when every command has one.
    pub fn missing_binding(&self) -> (missing: Option<CommandName>)
        requires
            self.wf(),
        ensures
            missing is None <==> (forall|id: CommandName| self@.contains_key(id)),
            missing matches Some(id) ==> !self@.contains_key(id) && (forall|j: int|
                0 <= j < id_index(id) ==> self@.contains_key(#[trigger] all_commands()[j])),
    {
        let ids = CommandName::iter();
        let n: usize = ids.len();
        let mut i: usize = 0;
        while i < n
            invariant
                self.wf(),
                n == ids@.len(),
                ids@ == all_commands(),
                i <= n,
                forall|j: int| 0 <= j < i ==> self@.contains_key(#[trigger] ids@[j]),
            decreases n - i,
        {
            let id = ids[i];
            if !self.is_registered(id) {
                proof {
                    lemma_all_commands_complete(id);
                    if id_index(id) != i {
                        lemma_all_commands_distinct(id_index(id), i as int);
                    }
                }
                return Some(id);
            }
            i += 1;
        }
        proof {
            assert forall|id: CommandName| #[trigger] self@.contains_key(id) by {
                lemma_all_commands_complete(id);
                assert(self@.contains_key(all_commands()[id_index(id)]));
            }
        }
        None
    }
}

impl<A: Action> Registry<A> {
    /// Invoke the action bound to `id` with `argument`, handing back what
    /// the invocation reported, or nothing when `id` has no bound action.
    /// Only the binding of `id` itself can change (the action may carry
    /// state of its own); every other binding is untouched.
    pub fn invoke_bound(&mut self, id: CommandName, argument: &str) -> (outcome: Option<
        Result<String, String>,
    >)
        requires
            old(self).wf(),
        ensures
            final(self).wf(),
            outcome is None <==> !old(self)@.contains_key(id),
            outcome is None ==> final(self)@ == old(self)@,
            old(self)@.contains_key(id) ==> {
                &&& final(self)@.dom() == old(self)@.dom()
                &&& forall|other: CommandName|
                    other != id && old(self)@.contains_key(other) ==> final(self)@[other] == old(
                        self,
                    )@[other]
            },
    {
        proof {
            lemma_all_commands_complete(id);
        }
        let i: usize = id.index();
        let slot = self.slots.remove(i);
        match slot {
            Some(mut action) => {
                let outcome = action.invoke(argument);
                self.slots.insert(i, Some(action));
                proof {
                    assert(self.slots@ =~= old(self).slots@.update(i as int, Some(action)));
                    assert forall|other: CommandName| other != id implies id_index(other)
                        != id_index(id) by {
                        lemma_all_commands_complete(other);
                    }
                    assert(final(self)@.dom() =~= old(self)@.dom());
                }
                Some(outcome)
            },
            None => {
                self.slots.insert(i, None);
                proof {
                    assert(self.slots@ =~= old(self).slots@);
                    assert(final(self)@ =~= old(self)@);
                }
                None
            },
        }
    }
}

} // verus!
