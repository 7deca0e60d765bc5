//! The scope registry: which address is current for which type identity.

use std::collections::hash_map::Entry;
use std::collections::HashMap;
use vstd::prelude::*;

verus! {

broadcast use vstd::std_specs::hash::group_hash_axioms;

/// What `slots` holds for `type_id`: the current address, or `None` where no
/// instance is current.
pub open spec fn current_in(slots: Map<u64, usize>, type_id: u64) -> Option<usize> {
    if slots.contains_key(type_id) {
        Some(slots[type_id])
    } else {
        None
    }
}

/// The slots once `address` has been made current for `type_id`.
pub open spec fn registered(slots: Map<u64, usize>, type_id: u64, address: usize) -> Map<
    u64,
    usize,
> {
    slots.insert(type_id, address)
}

/// The slots once the registration for `type_id` has been undone: the entry
/// is gone where nothing was current before, and holds the previous address
/// otherwise.
pub open spec fn restored(slots: Map<u64, usize>, type_id: u64, previous: Option<usize>) -> Map<
    u64,
    usize,
> {
    match previous {
        None => slots.remove(type_id),
        Some(address) => slots.insert(type_id, address),
    }
}

/// Registering or restoring for one type identity leaves what is current for
/// every other type identity as it was.
pub proof fn lemma_other_types_untouched(
    slots: Map<u64, usize>,
    type_id: u64,
    other: u64,
    address: usize,
    previous: Option<usize>,
)
    requires
        type_id != other,
    ensures
        current_in(registered(slots, type_id, address), other) == current_in(slots, other),
        current_in(restored(slots, type_id, previous), other) == current_in(slots, other),
{
}

/// After a registration its address is the one that is current for its type
/// identity.
pub proof fn lemma_registered_is_current(slots: Map<u64, usize>, type_id: u64, address: usize)
    ensures
        current_in(registered(slots, type_id, address), type_id) == Some(address),
{
}

/// After a restoration what is current for the type identity is what was
/// handed back: the previous address, or nothing.
pub proof fn lemma_restored_is_previous(
    slots: Map<u64, usize>,
    type_id: u64,
    previous: Option<usize>,
)
    ensures
        current_in(restored(slots, type_id, previous), type_id) == previous,
{
}

/// Restoring with what a registration returned undoes that registration: the
/// slots are again what they were before it.
pub proof fn lemma_restore_undoes_register(slots: Map<u64, usize>, type_id: u64, address: usize)
    ensures
        restored(registered(slots, type_id, address), type_id, current_in(slots, type_id))
            == slots,
{
    let after = restored(registered(slots, type_id, address), type_id, current_in(slots, type_id));
    assert(after =~= slots);
}

/// Maps a type identity to the address of the instance that is current for
/// it. There is at most one entry per type identity.
pub struct Registry {
    slots: HashMap<u64, usize>,
}

impl View for Registry {
    type V = Map<u64, usize>;

    closed spec fn view(&self) -> Map<u64, usize> {
        self.slots@
    }
}

impl Registry {
    /// A registry in which nothing is current.
    pub fn new() -> (registry: Registry)
        ensures
            registry@ == Map::<u64, usize>::empty(),
    {
        Registry { slots: HashMap::new() }
    }

    /// Makes `address` current for `type_id` and returns what was current
    /// before, if anything was.
    pub fn register(&mut self, type_id: u64, address: usize) -> (previous: Option<usize>)
        ensures
            final(self)@ == registered(old(self)@, type_id, address),
            previous == current_in(old(self)@, type_id),
    {
        match self.slots.entry(type_id) {
            Entry::Occupied(mut entry) => Some(entry.insert(address)),
            Entry::Vacant(entry) => {
                entry.insert(address);
                None
            },
        }
    }

    /// Undoes a registration for `type_id`, given what `register` returned
    /// for it.
    pub fn restore(&mut self, type_id: u64, previous: Option<usize>)
        ensures
            final(self)@ == restored(old(self)@, type_id, previous),
    {
        match previous {
            None => {
                self.slots.remove(&type_id);
            },
            Some(address) => {
                match self.slots.entry(type_id) {
                    Entry::Occupied(mut entry) => {
                        entry.insert(address);
                    },
                    Entry::Vacant(entry) => {
                        entry.insert(address);
                    },
                }
            },
        }
    }

    /// The address that is current for `type_id`, if any.
    pub fn lookup(&self, type_id: u64) -> (address: Option<usize>)
        ensures
            address == current_in(self@, type_id),
    {
        match self.slots.get(&type_id) {
            Some(address) => Some(*address),
            None => None,
        }
    }
}

} // verus!
