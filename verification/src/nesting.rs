//! Nested scopes, as a sequence of acquisitions and releases.
//!
//! Each acquisition shadows what was current for its type identity, and each
//! release puts back what the innermost guard still held for its type
//! identity has shadowed. Guards for different type identities may interleave
//! in any order. As long as no step releases a guard that is not held, what
//! lies beneath the guards of a type identity never changes, and it is
//! current again as soon as the last of them is released.

use crate::registry::{current_in, registered, restored};
use vstd::prelude::*;

verus! {

/// One step in the life of the scopes.
pub enum ScopeStep {
    /// A guard is acquired and makes `address` current for `type_id`.
    Acquire { type_id: u64, address: usize },
    /// The innermost guard still held for `type_id` is released.
    Release { type_id: u64 },
}

/// The slots of a registry together with, for each type identity, what the
/// guards still held for it have shadowed, innermost last. A type identity
/// without an entry in `shadowed` has no guard.
pub struct Scopes {
    pub slots: Map<u64, usize>,
    pub shadowed: Map<u64, Seq<Option<usize>>>,
}

/// The scopes of a registry with `slots` for which no guard is held.
pub open spec fn unguarded(slots: Map<u64, usize>) -> Scopes {
    Scopes { slots, shadowed: Map::empty() }
}

/// What the guards still held for `type_id` have shadowed, innermost last.
pub open spec fn held(scopes: Scopes, type_id: u64) -> Seq<Option<usize>> {
    if scopes.shadowed.contains_key(type_id) {
        scopes.shadowed[type_id]
    } else {
        Seq::empty()
    }
}

/// The scopes after a guard for `type_id` has been acquired for `address`.
pub open spec fn acquired(scopes: Scopes, type_id: u64, address: usize) -> Scopes {
    Scopes {
        slots: registered(scopes.slots, type_id, address),
        shadowed: scopes.shadowed.insert(
            type_id,
            held(scopes, type_id).push(current_in(scopes.slots, type_id)),
        ),
    }
}

/// The scopes after the innermost guard for `type_id` has been released.
pub open spec fn released(scopes: Scopes, type_id: u64) -> Scopes
    recommends
        held(scopes, type_id).len() > 0,
{
    Scopes {
        slots: restored(scopes.slots, type_id, held(scopes, type_id).last()),
        shadowed: scopes.shadowed.insert(type_id, held(scopes, type_id).drop_last()),
    }
}

/// Whether `step` can be taken: a release needs a guard that is held.
pub open spec fn permitted(scopes: Scopes, step: ScopeStep) -> bool {
    match step {
        ScopeStep::Acquire { .. } => true,
        ScopeStep::Release { type_id } => held(scopes, type_id).len() > 0,
    }
}

/// The scopes after one step.
pub open spec fn stepped(scopes: Scopes, step: ScopeStep) -> Scopes {
    match step {
        ScopeStep::Acquire { type_id, address } => acquired(scopes, type_id, address),
        ScopeStep::Release { type_id } => released(scopes, type_id),
    }
}

/// The scopes after all of `steps`, first to last.
pub open spec fn replayed(scopes: Scopes, steps: Seq<ScopeStep>) -> Scopes
    decreases steps.len(),
{
    if steps.len() == 0 {
        scopes
    } else {
        replayed(stepped(scopes, steps.first()), steps.drop_first())
    }
}

/// Whether `steps`, taken from `scopes` on, never release a guard that is not
/// held.
pub open spec fn well_nested(scopes: Scopes, steps: Seq<ScopeStep>) -> bool
    decreases steps.len(),
{
    steps.len() == 0 || {
        &&& permitted(scopes, steps.first())
        &&& well_nested(stepped(scopes, steps.first()), steps.drop_first())
    }
}

/// What lies beneath the guards for `type_id`: what the outermost guard held
/// for it has shadowed, or what is current where no guard is held.
pub open spec fn beneath(scopes: Scopes, type_id: u64) -> Option<usize> {
    if held(scopes, type_id).len() == 0 {
        current_in(scopes.slots, type_id)
    } else {
        held(scopes, type_id).first()
    }
}

/// A guard acquired while another for the same type identity is held shadows
/// it: the inner address is current until the inner guard is released, and
/// then the outer address is current again, with the outer guard still held.
pub proof fn lemma_shadow_and_restore(scopes: Scopes, type_id: u64, outer: usize, inner: usize)
    ensures
        ({
            let outside = acquired(scopes, type_id, outer);
            let inside = acquired(outside, type_id, inner);
            let back = released(inside, type_id);
            &&& current_in(outside.slots, type_id) == Some(outer)
            &&& current_in(inside.slots, type_id) == Some(inner)
            &&& held(inside, type_id).last() == Some(outer)
            &&& current_in(back.slots, type_id) == Some(outer)
            &&& back.slots == outside.slots
            &&& held(back, type_id) == held(outside, type_id)
        }),
{
    let outside = acquired(scopes, type_id, outer);
    let inside = acquired(outside, type_id, inner);
    let back = released(inside, type_id);
    assert(back.slots =~= outside.slots);
    assert(held(back, type_id) =~= held(outside, type_id));
}

/// Releasing the only guard held for a type identity makes current again
/// what was current before that guard was acquired: the previous address, or
/// nothing.
pub proof fn lemma_outermost_release_restores(scopes: Scopes, type_id: u64, address: usize)
    requires
        held(scopes, type_id).len() == 0,
    ensures
        ({
            let back = released(acquired(scopes, type_id, address), type_id);
            &&& back.slots == scopes.slots
            &&& held(back, type_id).len() == 0
        }),
{
    let back = released(acquired(scopes, type_id, address), type_id);
    assert(back.slots =~= scopes.slots);
}

/// A permitted step leaves what lies beneath the guards of every type
/// identity as it was.
pub proof fn lemma_step_keeps_beneath(scopes: Scopes, step: ScopeStep, type_id: u64)
    requires
        permitted(scopes, step),
    ensures
        beneath(stepped(scopes, step), type_id) == beneath(scopes, type_id),
{
}

/// A well-nested sequence of steps leaves what lies beneath the guards of
/// every type identity as it was.
pub proof fn lemma_replay_keeps_beneath(scopes: Scopes, steps: Seq<ScopeStep>, type_id: u64)
    requires
        well_nested(scopes, steps),
    ensures
        beneath(replayed(scopes, steps), type_id) == beneath(scopes, type_id),
    decreases steps.len(),
{
    if steps.len() > 0 {
        lemma_step_keeps_beneath(scopes, steps.first(), type_id);
        lemma_replay_keeps_beneath(stepped(scopes, steps.first()), steps.drop_first(), type_id);
    }
}

/// After a well-nested sequence of acquisitions and releases, a type identity
/// that had no guard at the start and has none any more has current what it
/// had before the sequence: once the outermost guard is released, a lookup
/// gives what it gave before that guard was acquired.
pub proof fn lemma_well_nested_restores(scopes: Scopes, steps: Seq<ScopeStep>, type_id: u64)
    requires
        well_nested(scopes, steps),
        held(scopes, type_id).len() == 0,
        held(replayed(scopes, steps), type_id).len() == 0,
    ensures
        current_in(replayed(scopes, steps).slots, type_id) == current_in(scopes.slots, type_id),
{
    lemma_replay_keeps_beneath(scopes, steps, type_id);
}

/// After a well-nested sequence of acquisitions and releases that starts with
/// no guard held and ends with none held, the slots are what they were.
pub proof fn lemma_all_released_restores(slots: Map<u64, usize>, steps: Seq<ScopeStep>)
    requires
        well_nested(unguarded(slots), steps),
        forall|type_id: u64| held(replayed(unguarded(slots), steps), type_id).len() == 0,
    ensures
        replayed(unguarded(slots), steps).slots == slots,
{
    let after = replayed(unguarded(slots), steps).slots;
    assert forall|type_id: u64| current_in(after, type_id) == current_in(slots, type_id) by {
        lemma_well_nested_restores(unguarded(slots), steps, type_id);
    }
    assert forall|type_id: u64| after.contains_key(type_id) == slots.contains_key(type_id) by {
        assert(current_in(after, type_id) == current_in(slots, type_id));
    }
    assert forall|type_id: u64| after.contains_key(type_id) implies after[type_id]
        == slots[type_id] by {
        assert(current_in(after, type_id) == current_in(slots, type_id));
    }
    assert(after =~= slots);
}

} // verus!
