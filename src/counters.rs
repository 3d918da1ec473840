//! The counter store: one count for each (operation, domain) pair.
use crate::domain::{AllocOp, AllocatorDomain};
use vstd::prelude::*;

verus! {

/// The number of (operation, domain) pairs, and so of counter slots.
pub const COUNTER_SLOTS: usize = 16;

/// The counts of one operation, one for each domain.
#[derive(Clone, Copy, Debug, PartialEq, Eq, Structural)]
pub struct DomainCounts {
    pub raw: u64,
    pub mem: u64,
    pub obj: u64,
    pub unknown: u64,
}

impl DomainCounts {
    /// The count of a domain.
    pub open spec fn at(self, d: AllocatorDomain) -> u64 {
        match d {
            AllocatorDomain::Raw => self.raw,
            AllocatorDomain::Mem => self.mem,
            AllocatorDomain::Obj => self.obj,
            AllocatorDomain::Unknown => self.unknown,
        }
    }

    /// The sum over all four domains.
    pub open spec fn sum(self) -> int {
        self.raw + self.mem + self.obj + self.unknown
    }

    /// The counts with one more call in domain `d`.
    pub open spec fn bumped(self, d: AllocatorDomain) -> DomainCounts {
        match d {
            AllocatorDomain::Raw => DomainCounts { raw: (self.raw + 1) as u64, ..self },
            AllocatorDomain::Mem => DomainCounts { mem: (self.mem + 1) as u64, ..self },
            AllocatorDomain::Obj => DomainCounts { obj: (self.obj + 1) as u64, ..self },
            AllocatorDomain::Unknown => DomainCounts { unknown: (self.unknown + 1) as u64, ..self },
        }
    }

    /// All counts zero.
    pub fn zero() -> (r: DomainCounts)
        ensures
            r.raw == 0 && r.mem == 0 && r.obj == 0 && r.unknown == 0,
    {
        DomainCounts { raw: 0, mem: 0, obj: 0, unknown: 0 }
    }

    /// The count of a domain.
    pub fn get(&self, d: AllocatorDomain) -> (r: u64)
        ensures
            r == self.at(d),
    {
        match d {
            AllocatorDomain::Raw => self.raw,
            AllocatorDomain::Mem => self.mem,
            AllocatorDomain::Obj => self.obj,
            AllocatorDomain::Unknown => self.unknown,
        }
    }

    /// The sum over all four domains; it cannot overflow a `u128`.
    pub fn total(&self) -> (r: u128)
        ensures
            r == self.sum(),
    {
        self.raw as u128 + self.mem as u128 + self.obj as u128 + self.unknown as u128
    }

    /// Counts one more call in domain `d`.
    pub fn bump(&mut self, d: AllocatorDomain)
        requires
            old(self).at(d) < u64::MAX,
        ensures
            *final(self) == old(self).bumped(d),
    {
        match d {
            AllocatorDomain::Raw => self.raw = self.raw + 1,
            AllocatorDomain::Mem => self.mem = self.mem + 1,
            AllocatorDomain::Obj => self.obj = self.obj + 1,
            AllocatorDomain::Unknown => self.unknown = self.unknown + 1,
        }
    }
}

/// The counters of intercepted allocator calls, by operation and domain.
#[derive(Clone, Copy, Debug, PartialEq, Eq, Structural)]
pub struct CounterStore {
    pub malloc: DomainCounts,
    pub calloc: DomainCounts,
    pub realloc: DomainCounts,
    pub free: DomainCounts,
}

/// A line of the report: a counter's name and its value.
#[derive(Clone, Copy, Debug, PartialEq, Eq)]
pub struct ReportEntry {
    pub name: &'static str,
    pub value: u128,
}

/// The position of an operation in the slot layout.
pub open spec fn op_index(op: AllocOp) -> int {
    match op {
        AllocOp::Malloc => 0,
        AllocOp::Calloc => 1,
        AllocOp::Realloc => 2,
        AllocOp::Free => 3,
    }
}

/// The position of a domain in the slot layout.
pub open spec fn domain_index(d: AllocatorDomain) -> int {
    match d {
        AllocatorDomain::Raw => 0,
        AllocatorDomain::Mem => 1,
        AllocatorDomain::Obj => 2,
        AllocatorDomain::Unknown => 3,
    }
}

/// The slot that holds the count of `(op, d)` in a flat array of counters.
pub open spec fn slot_index(op: AllocOp, d: AllocatorDomain) -> int {
    4 * op_index(op) + domain_index(d)
}

/// The slot that holds the count of `(op, d)` in a flat array of
/// `COUNTER_SLOTS` counters; distinct pairs have distinct slots.
pub fn counter_index(op: AllocOp, d: AllocatorDomain) -> (r: usize)
    ensures
        r == slot_index(op, d),
        r < COUNTER_SLOTS,
        forall|op2: AllocOp, d2: AllocatorDomain|
            #[trigger] slot_index(op2, d2) == r ==> op2 == op && d2 == d,
{
    let o: usize = match op {
        AllocOp::Malloc => 0,
        AllocOp::Calloc => 1,
        AllocOp::Realloc => 2,
        AllocOp::Free => 3,
    };
    let i: usize = match d {
        AllocatorDomain::Raw => 0,
        AllocatorDomain::Mem => 1,
        AllocatorDomain::Obj => 2,
        AllocatorDomain::Unknown => 3,
    };
    4 * o + i
}

impl CounterStore {
    /// The store with every count zero.
    pub open spec fn zeroed() -> CounterStore {
        let z = DomainCounts { raw: 0, mem: 0, obj: 0, unknown: 0 };
        CounterStore { malloc: z, calloc: z, realloc: z, free: z }
    }

    /// The counts of an operation.
    pub open spec fn counts_of(self, op: AllocOp) -> DomainCounts {
        match op {
            AllocOp::Malloc => self.malloc,
            AllocOp::Calloc => self.calloc,
            AllocOp::Realloc => self.realloc,
            AllocOp::Free => self.free,
        }
    }

    /// The count of `(op, d)`.
    pub open spec fn count_of(self, op: AllocOp, d: AllocatorDomain) -> u64 {
        self.counts_of(op).at(d)
    }

    /// The store after one more call of `op` in domain `d`.
    pub open spec fn recorded(self, op: AllocOp, d: AllocatorDomain) -> CounterStore {
        match op {
            AllocOp::Malloc => CounterStore { malloc: self.malloc.bumped(d), ..self },
            AllocOp::Calloc => CounterStore { calloc: self.calloc.bumped(d), ..self },
            AllocOp::Realloc => CounterStore { realloc: self.realloc.bumped(d), ..self },
            AllocOp::Free => CounterStore { free: self.free.bumped(d), ..self },
        }
    }

    /// Allocate plus zero-allocate calls, over all domains.
    pub open spec fn total_allocate(self) -> int {
        self.malloc.sum() + self.calloc.sum()
    }

    /// The calls that hand out a block: allocate, zero-allocate and
    /// reallocate, over all domains.
    pub open spec fn producing_calls(self) -> int {
        self.malloc.sum() + self.calloc.sum() + self.realloc.sum()
    }

    /// The store with every count zero.
    pub fn new() -> (r: CounterStore)
        ensures
            r == CounterStore::zeroed(),
            forall|op: AllocOp, d: AllocatorDomain| #[trigger] r.count_of(op, d) == 0,
    {
        CounterStore {
            malloc: DomainCounts::zero(),
            calloc: DomainCounts::zero(),
            realloc: DomainCounts::zero(),
            free: DomainCounts::zero(),
        }
    }

    /// The count of `(op, d)`.
    pub fn count(&self, op: AllocOp, d: AllocatorDomain) -> (r: u64)
        ensures
            r == self.count_of(op, d),
    {
        match op {
            AllocOp::Malloc => self.malloc.get(d),
            AllocOp::Calloc => self.calloc.get(d),
            AllocOp::Realloc => self.realloc.get(d),
            AllocOp::Free => self.free.get(d),
        }
    }

    /// The count of an operation over all domains.
    pub fn op_count(&self, op: AllocOp) -> (r: u128)
        ensures
            r == self.counts_of(op).sum(),
    {
        match op {
            AllocOp::Malloc => self.malloc.total(),
            AllocOp::Calloc => self.calloc.total(),
            AllocOp::Realloc => self.realloc.total(),
            AllocOp::Free => self.free.total(),
        }
    }

    /// Allocate plus zero-allocate calls, over all domains.
    pub fn total_allocate_count(&self) -> (r: u128)
        ensures
            r == self.total_allocate(),
    {
        self.malloc.total() + self.calloc.total()
    }

    /// Counts one call of `op` in domain `d`; no other count changes.
    pub fn record(&mut self, op: AllocOp, d: AllocatorDomain)
        requires
            old(self).count_of(op, d) < u64::MAX,
        ensures
            *final(self) == old(self).recorded(op, d),
            final(self).count_of(op, d) == old(self).count_of(op, d) + 1,
            forall|op2: AllocOp, d2: AllocatorDomain|
                (op2 != op || d2 != d) ==> #[trigger] final(self).count_of(op2, d2)
                    == old(self).count_of(op2, d2),
    {
        match op {
            AllocOp::Malloc => self.malloc.bump(d),
            AllocOp::Calloc => self.calloc.bump(d),
            AllocOp::Realloc => self.realloc.bump(d),
            AllocOp::Free => self.free.bump(d),
        }
    }

    /// Reads a store from a flat array of counters laid out by
    /// `counter_index`.
    pub fn from_slots(v: &Vec<u64>) -> (r: CounterStore)
        requires
            v@.len() == COUNTER_SLOTS,
        ensures
            forall|op: AllocOp, d: AllocatorDomain| #[trigger]
                r.count_of(op, d) == v@[slot_index(op, d)],
    {
        CounterStore {
            malloc: DomainCounts { raw: v[0], mem: v[1], obj: v[2], unknown: v[3] },
            calloc: DomainCounts { raw: v[4], mem: v[5], obj: v[6], unknown: v[7] },
            realloc: DomainCounts { raw: v[8], mem: v[9], obj: v[10], unknown: v[11] },
            free: DomainCounts { raw: v[12], mem: v[13], obj: v[14], unknown: v[15] },
        }
    }
}

/// The names of the report's lines, in order.
pub open spec fn report_names() -> Seq<Seq<char>> {
    seq![
        "malloc_count"@,
        "calloc_count"@,
        "realloc_count"@,
        "free_count"@,
        "total_alloc_count"@,
        "raw_malloc_count"@,
        "mem_malloc_count"@,
        "obj_malloc_count"@,
        "unk_malloc_count"@,
    ]
}

impl CounterStore {
    /// The values of the report's lines, in the order of `report_names`.
    pub open spec fn report_values(self) -> Seq<int> {
        seq![
            self.malloc.sum(),
            self.calloc.sum(),
            self.realloc.sum(),
            self.free.sum(),
            self.total_allocate(),
            self.malloc.raw as int,
            self.malloc.mem as int,
            self.malloc.obj as int,
            self.malloc.unknown as int,
        ]
    }

    /// The report: each operation's count over all domains, the total of
    /// allocate and zero-allocate calls, and the allocate count of each
    /// domain, one named entry each.
    pub fn report(&self) -> (r: Vec<ReportEntry>)
        ensures
            r@.len() == report_names().len(),
            forall|i: int|
                0 <= i < r@.len() ==> (#[trigger] r@[i]).name@ == report_names()[i]
                    && r@[i].value == self.report_values()[i],
    {
        let mut r: Vec<ReportEntry> = Vec::new();
        r.push(ReportEntry { name: "malloc_count", value: self.malloc.total() });
        r.push(ReportEntry { name: "calloc_count", value: self.calloc.total() });
        r.push(ReportEntry { name: "realloc_count", value: self.realloc.total() });
        r.push(ReportEntry { name: "free_count", value: self.free.total() });
        r.push(ReportEntry { name: "total_alloc_count", value: self.total_allocate_count() });
        r.push(ReportEntry { name: "raw_malloc_count", value: self.malloc.raw as u128 });
        r.push(ReportEntry { name: "mem_malloc_count", value: self.malloc.mem as u128 });
        r.push(ReportEntry { name: "obj_malloc_count", value: self.malloc.obj as u128 });
        r.push(ReportEntry { name: "unk_malloc_count", value: self.malloc.unknown as u128 });
        r
    }
}

} // verus!
