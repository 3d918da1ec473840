//! Allocation domains, operations, and attribution of a call to its domain.
use vstd::prelude::*;

verus! {

/// One of the runtime's allocation pools, or `Unknown` for a call whose
/// context was not captured at installation.
#[derive(Clone, Copy, Debug, PartialEq, Eq, Structural)]
pub enum AllocatorDomain {
    /// The low-level pool.
    Raw,
    /// The general-purpose pool, layered on the low-level one.
    Mem,
    /// The object pool, layered on the general one.
    Obj,
    /// No captured context matched.
    Unknown,
}

/// The four slots of an allocator.
#[derive(Clone, Copy, Debug, PartialEq, Eq, Structural)]
pub enum AllocOp {
    /// allocate(context, size)
    Malloc,
    /// zero-allocate(context, count, element size)
    Calloc,
    /// reallocate(context, pointer, size)
    Realloc,
    /// release(context, pointer)
    Free,
}

/// The addresses of the three entries of the original-allocator registry.
/// Each installed shim is handed back the address of its domain's entry as
/// its context, which is how a call is attributed to its domain.
#[derive(Clone, Copy, Debug, PartialEq, Eq, Structural)]
pub struct RegistrySlots {
    pub raw: usize,
    pub mem: usize,
    pub obj: usize,
}

impl RegistrySlots {
    /// The three entries are distinct objects, so no two share an address.
    pub open spec fn distinct(self) -> bool {
        self.raw != self.mem && self.raw != self.obj && self.mem != self.obj
    }

    /// The address of a domain's entry (`Unknown` has none).
    pub open spec fn slot_of(self, d: AllocatorDomain) -> Option<usize> {
        match d {
            AllocatorDomain::Raw => Some(self.raw),
            AllocatorDomain::Mem => Some(self.mem),
            AllocatorDomain::Obj => Some(self.obj),
            AllocatorDomain::Unknown => None,
        }
    }
}

/// The domain a context address is attributed to: the first registry entry
/// whose address it is, else `Unknown`.
pub open spec fn domain_of(slots: RegistrySlots, ctx: usize) -> AllocatorDomain {
    if ctx == slots.raw {
        AllocatorDomain::Raw
    } else if ctx == slots.mem {
        AllocatorDomain::Mem
    } else if ctx == slots.obj {
        AllocatorDomain::Obj
    } else {
        AllocatorDomain::Unknown
    }
}

/// Attributes a call to a domain by comparing its context address with the
/// addresses of the registry's entries.
pub fn classify_context(slots: &RegistrySlots, ctx: usize) -> (d: AllocatorDomain)
    ensures
        d == domain_of(*slots, ctx),
        d == AllocatorDomain::Unknown <==> (ctx != slots.raw && ctx != slots.mem && ctx
            != slots.obj),
        d != AllocatorDomain::Unknown ==> slots.slot_of(d) == Some(ctx),
{
    if ctx == slots.raw {
        AllocatorDomain::Raw
    } else if ctx == slots.mem {
        AllocatorDomain::Mem
    } else if ctx == slots.obj {
        AllocatorDomain::Obj
    } else {
        AllocatorDomain::Unknown
    }
}

/// The label of a domain in reports.
pub open spec fn domain_label_of(d: AllocatorDomain) -> Seq<char> {
    match d {
        AllocatorDomain::Raw => "raw"@,
        AllocatorDomain::Mem => "mem"@,
        AllocatorDomain::Obj => "obj"@,
        AllocatorDomain::Unknown => "unk"@,
    }
}

/// The label of a domain in reports: `raw`, `mem`, `obj` or `unk`.
pub fn get_allocator_str(d: AllocatorDomain) -> (r: &'static str)
    ensures
        r@ == domain_label_of(d),
{
    match d {
        AllocatorDomain::Raw => "raw",
        AllocatorDomain::Mem => "mem",
        AllocatorDomain::Obj => "obj",
        AllocatorDomain::Unknown => "unk",
    }
}

/// The name of the metric that counts an operation.
pub open spec fn op_metric_name_of(op: AllocOp) -> Seq<char> {
    match op {
        AllocOp::Malloc => "mallocs"@,
        AllocOp::Calloc => "callocs"@,
        AllocOp::Realloc => "reallocs"@,
        AllocOp::Free => "frees"@,
    }
}

/// The name of the metric that counts an operation.
pub fn op_metric_name(op: AllocOp) -> (r: &'static str)
    ensures
        r@ == op_metric_name_of(op),
{
    match op {
        AllocOp::Malloc => "mallocs",
        AllocOp::Calloc => "callocs",
        AllocOp::Realloc => "reallocs",
        AllocOp::Free => "frees",
    }
}

} // verus!
