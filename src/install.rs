//! The installation controller: whether the shims are active, what to
//! install, and the registry of the originals they delegate to.
use crate::domain::{domain_of, AllocatorDomain, RegistrySlots};
use vstd::prelude::*;

verus! {

/// An allocator as the runtime holds it, by address: its context and its
/// four functions (0 where a function is absent).
#[derive(Clone, Copy, Debug, PartialEq, Eq, Structural)]
pub struct AllocatorFunctionSet {
    pub ctx: usize,
    pub malloc: usize,
    pub calloc: usize,
    pub realloc: usize,
    pub free: usize,
}

/// One allocator for each of the three domains.
#[derive(Clone, Copy, Debug, PartialEq, Eq, Structural)]
pub struct AllocatorTables {
    pub raw: AllocatorFunctionSet,
    pub mem: AllocatorFunctionSet,
    pub obj: AllocatorFunctionSet,
}

/// The addresses of the interceptor's four shim functions.
#[derive(Clone, Copy, Debug, PartialEq, Eq, Structural)]
pub struct ShimFns {
    pub malloc: usize,
    pub calloc: usize,
    pub realloc: usize,
    pub free: usize,
}

/// The runtime's active allocators together with the registry of the
/// originals that the shims delegate to.
#[derive(Clone, Copy, Debug, PartialEq, Eq, Structural)]
pub struct InstallState {
    pub tables: AllocatorTables,
    pub registry: AllocatorTables,
}

impl AllocatorTables {
    /// The allocator of a domain (`Unknown` has none).
    pub open spec fn table_of(self, d: AllocatorDomain) -> Option<AllocatorFunctionSet> {
        match d {
            AllocatorDomain::Raw => Some(self.raw),
            AllocatorDomain::Mem => Some(self.mem),
            AllocatorDomain::Obj => Some(self.obj),
            AllocatorDomain::Unknown => None,
        }
    }
}

/// The shims, handed back `ctx` as their context.
pub open spec fn shim_set(shims: ShimFns, ctx: usize) -> AllocatorFunctionSet {
    AllocatorFunctionSet {
        ctx,
        malloc: shims.malloc,
        calloc: shims.calloc,
        realloc: shims.realloc,
        free: shims.free,
    }
}

/// The allocators to install: the shims in every domain, each with the
/// address of its domain's registry entry as context.
pub open spec fn planned_tables(shims: ShimFns, slots: RegistrySlots) -> AllocatorTables {
    AllocatorTables {
        raw: shim_set(shims, slots.raw),
        mem: shim_set(shims, slots.mem),
        obj: shim_set(shims, slots.obj),
    }
}

/// Whether the shims are active: the low-level domain's allocate function
/// is the interceptor's own.
pub fn is_installed(raw: &AllocatorFunctionSet, shims: &ShimFns) -> (r: bool)
    ensures
        r == (raw.malloc == shims.malloc),
{
    raw.malloc == shims.malloc
}

fn make_shim_set(shims: &ShimFns, ctx: usize) -> (r: AllocatorFunctionSet)
    ensures
        r == shim_set(*shims, ctx),
{
    AllocatorFunctionSet {
        ctx,
        malloc: shims.malloc,
        calloc: shims.calloc,
        realloc: shims.realloc,
        free: shims.free,
    }
}

/// What to install over the current allocators: nothing where the shims are
/// already active, else the shims in every domain, with the addresses of the
/// registry's entries as contexts.
pub fn plan_install(current: &AllocatorTables, shims: &ShimFns, slots: &RegistrySlots) -> (r:
    Option<AllocatorTables>)
    ensures
        r == if current.raw.malloc == shims.malloc {
            None::<AllocatorTables>
        } else {
            Some(planned_tables(*shims, *slots))
        },
{
    if is_installed(&current.raw, shims) {
        None
    } else {
        Some(
            AllocatorTables {
                raw: make_shim_set(shims, slots.raw),
                mem: make_shim_set(shims, slots.mem),
                obj: make_shim_set(shims, slots.obj),
            },
        )
    }
}

impl InstallState {
    /// The state after an installation: unchanged where the shims are
    /// active; else the current allocators are captured into the registry
    /// and the shims take their place.
    pub open spec fn installed(self, shims: ShimFns, slots: RegistrySlots) -> InstallState {
        if self.tables.raw.malloc == shims.malloc {
            self
        } else {
            InstallState { tables: planned_tables(shims, slots), registry: self.tables }
        }
    }

    /// The original a shim delegates to when handed `ctx`: the registry
    /// entry of the domain that `ctx` is attributed to.
    pub open spec fn delegate_of(self, slots: RegistrySlots, ctx: usize) -> Option<
        AllocatorFunctionSet,
    > {
        self.registry.table_of(domain_of(slots, ctx))
    }

    /// Installs the shims unless they are already active.
    pub fn install(&mut self, shims: &ShimFns, slots: &RegistrySlots)
        ensures
            *final(self) == old(self).installed(*shims, *slots),
    {
        match plan_install(&self.tables, shims, slots) {
            None => {},
            Some(planned) => {
                self.registry = self.tables;
                self.tables = planned;
            },
        }
    }

    /// The original a shim delegates to when handed `ctx`; `None` where `ctx`
    /// is not the address of a registry entry.
    pub fn delegate(&self, slots: &RegistrySlots, ctx: usize) -> (r: Option<AllocatorFunctionSet>)
        ensures
            r == self.delegate_of(*slots, ctx),
    {
        if ctx == slots.raw {
            Some(self.registry.raw)
        } else if ctx == slots.mem {
            Some(self.registry.mem)
        } else if ctx == slots.obj {
            Some(self.registry.obj)
        } else {
            None
        }
    }
}

/// Installing twice in succession leaves the same allocators and the same
/// registry as installing once.
pub proof fn lemma_install_idempotent(s: InstallState, shims: ShimFns, slots: RegistrySlots)
    ensures
        s.installed(shims, slots).installed(shims, slots) == s.installed(shims, slots),
{
}

/// After installing, once or twice, over allocators that are not the shims,
/// each domain's allocator is the shim handed its own registry entry, that
/// entry is attributed to the domain, and it holds the allocator that was
/// active before: a call goes through one shim to the original, never
/// through the shim twice.
pub proof fn lemma_install_delegates_once(
    s: InstallState,
    shims: ShimFns,
    slots: RegistrySlots,
    d: AllocatorDomain,
)
    requires
        slots.distinct(),
        s.tables.raw.malloc != shims.malloc,
        d != AllocatorDomain::Unknown,
    ensures
        ({
            let once = s.installed(shims, slots);
            let twice = once.installed(shims, slots);
            let ctx = slots.slot_of(d).unwrap();
            &&& twice == once
            &&& once.tables.table_of(d) == Some(shim_set(shims, ctx))
            &&& domain_of(slots, ctx) == d
            &&& once.delegate_of(slots, ctx) == s.tables.table_of(d)
            &&& once.delegate_of(slots, slots.raw).unwrap().malloc != shims.malloc
        }),
{
}

} // verus!
