//! The accessor: resolves a type identity to the instance that is current.
//!
//! An address is resolved against a slice of instances that the caller
//! lends: the instance at address `a` is the element at index `a`. An address
//! that the slice does not cover resolves to nothing.

use crate::registry::{current_in, Registry};
use std::marker::PhantomData;
use vstd::prelude::*;
use vstd::string::StringExecFns;

verus! {

/// Whether something is current for `type_id` at an address below `len`.
pub open spec fn resolves(slots: Map<u64, usize>, type_id: u64, len: nat) -> bool {
    slots.contains_key(type_id) && slots[type_id] < len
}

/// The instance that is current for `type_id` among `instances`, or `None`
/// where nothing is current or the address lies outside `instances`.
pub open spec fn instance_in<T>(slots: Map<u64, usize>, type_id: u64, instances: Seq<T>) -> Option<
    T,
> {
    if resolves(slots, type_id, instances.len()) {
        Some(instances[slots[type_id] as int])
    } else {
        None
    }
}

/// Nothing resolves for a type identity that has no entry, whatever
/// instances are lent.
pub proof fn lemma_absent_resolves_to_nothing<T>(
    slots: Map<u64, usize>,
    type_id: u64,
    instances: Seq<T>,
)
    requires
        !slots.contains_key(type_id),
    ensures
        current_in(slots, type_id) is None,
        instance_in(slots, type_id, instances) is None,
{
}

/// What is written to the current instance is what the next access reads,
/// and no other instance is touched by the write.
pub proof fn lemma_write_is_read_back<T>(
    slots: Map<u64, usize>,
    type_id: u64,
    instances: Seq<T>,
    value: T,
)
    requires
        resolves(slots, type_id, instances.len()),
    ensures
        ({
            let written = instances.update(slots[type_id] as int, value);
            &&& instance_in(slots, type_id, written) == Some(value)
            &&& written.len() == instances.len()
            &&& forall|i: int|
                0 <= i < instances.len() && i != slots[type_id] ==> written[i] == instances[i]
        }),
{
}

/// What is reported when an instance of the type called `name` is asked
/// for and none is current.
pub open spec fn absent_message(name: Seq<char>) -> Seq<char> {
    "No current `"@ + name + "` is set"@
}

/// Builds the report for an access to a type of which no instance is
/// current.
pub fn no_current_message(name: &str) -> (message: String)
    ensures
        message@ == absent_message(name@),
{
    let mut message = String::from_str("No current `");
    message.append(name);
    message.append("` is set");
    message
}

/// A token for the instance of `T` that is current. It holds no instance:
/// each access looks the type identity up anew.
pub struct Current<T> {
    type_id: u64,
    marker: PhantomData<T>,
}

impl<T> View for Current<T> {
    type V = u64;

    closed spec fn view(&self) -> u64 {
        self.type_id
    }
}

impl<T> Current<T> {
    /// An accessor for the type identity `type_id`.
    pub fn new(type_id: u64) -> (current: Current<T>)
        ensures
            current@ == type_id,
    {
        Current { type_id, marker: PhantomData }
    }

    /// The type identity that this accessor looks up.
    pub fn type_id(&self) -> (type_id: u64)
        ensures
            type_id == self@,
    {
        self.type_id
    }

    /// The address that is current for this accessor's type, if any.
    pub fn address(&self, registry: &Registry) -> (address: Option<usize>)
        ensures
            address == current_in(registry@, self@),
    {
        registry.lookup(self.type_id)
    }

    /// A shared view of the current instance, or `None` where nothing among
    /// `instances` is current.
    pub fn current_ref<'a>(&self, registry: &Registry, instances: &'a [T]) -> (found: Option<&'a T>)
        ensures
            match found {
                Some(instance) => instance_in(registry@, self@, instances@) == Some(*instance),
                None => instance_in(registry@, self@, instances@) is None,
            },
    {
        match registry.lookup(self.type_id) {
            Some(address) => {
                if address < instances.len() {
                    Some(&instances[address])
                } else {
                    None
                }
            },
            None => None,
        }
    }

    /// A mutable view of the current instance, or `None` where nothing among
    /// `instances` is current. What is written through the view lands in
    /// `instances` at the current address and nowhere else.
    pub fn current<'a>(&mut self, registry: &Registry, instances: &'a mut [T]) -> (found: Option<
        &'a mut T,
    >)
        ensures
            final(self)@ == old(self)@,
            match found {
                Some(instance) => {
                    &&& instance_in(registry@, old(self)@, old(instances)@) == Some(*instance)
                    &&& final(instances)@ == old(instances)@.update(
                        registry@[old(self)@] as int,
                        *final(instance),
                    )
                },
                None => {
                    &&& instance_in(registry@, old(self)@, old(instances)@) is None
                    &&& final(instances)@ == old(instances)@
                },
            },
    {
        match registry.lookup(self.type_id) {
            Some(address) => {
                if address < instances.len() {
                    Some(&mut instances[address])
                } else {
                    None
                }
            },
            None => None,
        }
    }

    /// The current instance, for a type of which an instance among
    /// `instances` is current.
    pub fn get<'a>(&self, registry: &Registry, instances: &'a [T]) -> (instance: &'a T)
        requires
            resolves(registry@, self@, instances@.len()),
        ensures
            instance_in(registry@, self@, instances@) == Some(*instance),
    {
        let address = registry.lookup(self.type_id).unwrap();
        &instances[address]
    }

    /// A mutable view of the current instance, for a type of which an
    /// instance among `instances` is current.
    pub fn current_unwrap<'a>(&mut self, registry: &Registry, instances: &'a mut [T]) -> (instance:
        &'a mut T)
        requires
            resolves(registry@, old(self)@, old(instances)@.len()),
        ensures
            final(self)@ == old(self)@,
            instance_in(registry@, old(self)@, old(instances)@) == Some(*instance),
            final(instances)@ == old(instances)@.update(
                registry@[old(self)@] as int,
                *final(instance),
            ),
    {
        let address = registry.lookup(self.type_id).unwrap();
        &mut instances[address]
    }
}

} // verus!
