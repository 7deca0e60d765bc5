//! The scope guard: makes an instance current and puts back what it shadowed.

use crate::registry::{current_in, registered, restored, Registry};
use vstd::prelude::*;

verus! {

/// What a guard stands for: the type identity it governs, the address it made
/// current, and the address that it shadowed, if any.
pub struct GuardView {
    pub type_id: u64,
    pub address: usize,
    pub previous: Option<usize>,
}

/// Holds the obligation to undo one registration. Releasing consumes the
/// guard, so a registration is undone at most once.
///
/// Guards for one type identity are to be released innermost first: then
/// each release makes current again what was current when its guard was
/// acquired (see [`crate::nesting`]). No order is asked of guards for
/// different type identities. A guard released out of order is not detected:
/// it still puts back the address it shadowed, whatever is current by then.
pub struct CurrentGuard {
    type_id: u64,
    address: usize,
    previous: Option<usize>,
}

impl View for CurrentGuard {
    type V = GuardView;

    closed spec fn view(&self) -> GuardView {
        GuardView { type_id: self.type_id, address: self.address, previous: self.previous }
    }
}

impl CurrentGuard {
    /// Makes `address` current for `type_id` in `registry` and remembers what
    /// was current before.
    pub fn new(registry: &mut Registry, type_id: u64, address: usize) -> (guard: CurrentGuard)
        ensures
            guard@.type_id == type_id,
            guard@.address == address,
            guard@.previous == current_in(old(registry)@, type_id),
            final(registry)@ == registered(old(registry)@, type_id, address),
    {
        let previous = registry.register(type_id, address);
        CurrentGuard { type_id, address, previous }
    }

    /// Ends the scope: puts back in `registry` what this guard shadowed, or
    /// removes the entry where it shadowed nothing.
    pub fn release(self, registry: &mut Registry)
        ensures
            final(registry)@ == restored(old(registry)@, self@.type_id, self@.previous),
    {
        registry.restore(self.type_id, self.previous);
    }

    /// The type identity that this guard governs.
    pub fn type_id(&self) -> (type_id: u64)
        ensures
            type_id == self@.type_id,
    {
        self.type_id
    }

    /// The address that this guard made current.
    pub fn address(&self) -> (address: usize)
        ensures
            address == self@.address,
    {
        self.address
    }

    /// The address that this guard shadowed, if any.
    pub fn previous(&self) -> (previous: Option<usize>)
        ensures
            previous == self@.previous,
    {
        self.previous
    }
}

} // verus!
