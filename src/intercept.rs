//! The counting step of the allocator shims: attribute a call to its domain
//! and count it there.
use crate::counters::{counter_index, slot_index, CounterStore};
use crate::domain::{classify_context, domain_of, AllocOp, AllocatorDomain, RegistrySlots};
use vstd::prelude::*;

verus! {

/// The counter slot that a call of `op` handed context `ctx` bumps.
pub fn counter_slot(slots: &RegistrySlots, op: AllocOp, ctx: usize) -> (r: usize)
    ensures
        r == slot_index(op, domain_of(*slots, ctx)),
        (ctx != slots.raw && ctx != slots.mem && ctx != slots.obj) ==> r == slot_index(
            op,
            AllocatorDomain::Unknown,
        ),
{
    counter_index(op, classify_context(slots, ctx))
}

/// Counts a call of `op` handed context `ctx` under the domain it is
/// attributed to, and returns that domain. A context that is not the
/// address of a registry entry is counted under `Unknown`.
pub fn count_call(store: &mut CounterStore, slots: &RegistrySlots, op: AllocOp, ctx: usize) -> (d:
    AllocatorDomain)
    requires
        old(store).count_of(op, domain_of(*slots, ctx)) < u64::MAX,
    ensures
        d == domain_of(*slots, ctx),
        (ctx != slots.raw && ctx != slots.mem && ctx != slots.obj) ==> d
            == AllocatorDomain::Unknown,
        *final(store) == old(store).recorded(op, d),
        final(store).count_of(op, d) == old(store).count_of(op, d) + 1,
        forall|op2: AllocOp, d2: AllocatorDomain|
            (op2 != op || d2 != d) ==> #[trigger] final(store).count_of(op2, d2) == old(
                store,
            ).count_of(op2, d2),
{
    let d = classify_context(slots, ctx);
    store.record(op, d);
    d
}

} // verus!
