use pyalloc_count::{
    classify_context, count_call, counter_index, counter_slot, get_allocator_str, op_metric_name,
    AllocOp, AllocatorDomain, AllocatorFunctionSet, AllocatorTables, CounterStore, InstallState,
    RegistrySlots, ShimFns, COUNTER_SLOTS,
};

const DOMAINS: [AllocatorDomain; 4] = [
    AllocatorDomain::Raw,
    AllocatorDomain::Mem,
    AllocatorDomain::Obj,
    AllocatorDomain::Unknown,
];
const OPS: [AllocOp; 4] = [AllocOp::Malloc, AllocOp::Calloc, AllocOp::Realloc, AllocOp::Free];

fn slots() -> RegistrySlots {
    RegistrySlots { raw: 0x1000, mem: 0x1028, obj: 0x1050 }
}

fn original(base: usize) -> AllocatorFunctionSet {
    AllocatorFunctionSet {
        ctx: base,
        malloc: base + 1,
        calloc: base + 2,
        realloc: base + 3,
        free: base + 4,
    }
}

fn shims() -> ShimFns {
    ShimFns { malloc: 0x9001, calloc: 0x9002, realloc: 0x9003, free: 0x9004 }
}

fn installed_state() -> InstallState {
    let tables = AllocatorTables { raw: original(0x100), mem: original(0x200), obj: original(0x300) };
    let mut s = InstallState { tables, registry: tables };
    s.install(&shims(), &slots());
    s
}

fn value_of(store: &CounterStore, name: &str) -> u128 {
    store.report().iter().find(|e| e.name == name).map(|e| e.value).unwrap()
}

#[test]
fn five_raw_allocs_three_obj_callocs() {
    let s = installed_state();
    let sl = slots();
    let mut store = CounterStore::new();
    for _ in 0..5 {
        assert_eq!(count_call(&mut store, &sl, AllocOp::Malloc, s.tables.raw.ctx), AllocatorDomain::Raw);
    }
    for _ in 0..3 {
        assert_eq!(count_call(&mut store, &sl, AllocOp::Calloc, s.tables.obj.ctx), AllocatorDomain::Obj);
    }
    assert_eq!(store.count(AllocOp::Malloc, AllocatorDomain::Raw), 5);
    assert_eq!(store.count(AllocOp::Calloc, AllocatorDomain::Obj), 3);
    assert_eq!(store.total_allocate_count(), 8);
    for op in OPS {
        for d in DOMAINS {
            let expected = match (op, d) {
                (AllocOp::Malloc, AllocatorDomain::Raw) => 5,
                (AllocOp::Calloc, AllocatorDomain::Obj) => 3,
                _ => 0,
            };
            assert_eq!(store.count(op, d), expected);
        }
    }
    assert_eq!(value_of(&store, "malloc_count"), 5);
    assert_eq!(value_of(&store, "calloc_count"), 3);
    assert_eq!(value_of(&store, "realloc_count"), 0);
    assert_eq!(value_of(&store, "free_count"), 0);
    assert_eq!(value_of(&store, "total_alloc_count"), 8);
    assert_eq!(value_of(&store, "raw_malloc_count"), 5);
    assert_eq!(value_of(&store, "mem_malloc_count"), 0);
    assert_eq!(value_of(&store, "obj_malloc_count"), 0);
    assert_eq!(value_of(&store, "unk_malloc_count"), 0);
}

#[test]
fn allocate_calls_across_domains_sum_to_n() {
    let sl = slots();
    let ctxs = [sl.raw, sl.mem, sl.obj, sl.obj, sl.raw, sl.mem, sl.mem];
    let mut store = CounterStore::new();
    for c in ctxs {
        count_call(&mut store, &sl, AllocOp::Malloc, c);
    }
    assert_eq!(store.total_allocate_count(), 7);
    assert_eq!(store.op_count(AllocOp::Malloc), 7);
    let per_domain: u64 = DOMAINS.iter().map(|d| store.count(AllocOp::Malloc, *d)).sum();
    assert_eq!(per_domain, 7);
    assert_eq!(store.count(AllocOp::Malloc, AllocatorDomain::Mem), 3);
}

#[test]
fn unknown_context_counted_as_unknown() {
    let sl = slots();
    let mut store = CounterStore::new();
    assert_eq!(classify_context(&sl, 0), AllocatorDomain::Unknown);
    assert_eq!(classify_context(&sl, 0x1001), AllocatorDomain::Unknown);
    assert_eq!(count_call(&mut store, &sl, AllocOp::Free, 0xdead), AllocatorDomain::Unknown);
    assert_eq!(count_call(&mut store, &sl, AllocOp::Malloc, 0), AllocatorDomain::Unknown);
    assert_eq!(store.count(AllocOp::Free, AllocatorDomain::Unknown), 1);
    assert_eq!(store.count(AllocOp::Malloc, AllocatorDomain::Unknown), 1);
    assert_eq!(value_of(&store, "unk_malloc_count"), 1);
    assert_eq!(
        counter_slot(&sl, AllocOp::Free, 0xdead),
        counter_index(AllocOp::Free, AllocatorDomain::Unknown)
    );
}

#[test]
fn each_registry_entry_is_its_domain() {
    let sl = slots();
    assert_eq!(classify_context(&sl, sl.raw), AllocatorDomain::Raw);
    assert_eq!(classify_context(&sl, sl.mem), AllocatorDomain::Mem);
    assert_eq!(classify_context(&sl, sl.obj), AllocatorDomain::Obj);
    assert_eq!(counter_slot(&sl, AllocOp::Realloc, sl.mem), 9);
}

#[test]
fn releases_bounded_by_producing_calls() {
    let sl = slots();
    let mut store = CounterStore::new();
    let trace = [
        (AllocOp::Malloc, sl.raw),
        (AllocOp::Calloc, sl.mem),
        (AllocOp::Realloc, sl.mem),
        (AllocOp::Free, sl.mem),
        (AllocOp::Free, sl.raw),
    ];
    for (op, ctx) in trace {
        count_call(&mut store, &sl, op, ctx);
        let produced = store.op_count(AllocOp::Malloc)
            + store.op_count(AllocOp::Calloc)
            + store.op_count(AllocOp::Realloc);
        assert!(store.op_count(AllocOp::Free) <= produced);
    }
    assert_eq!(store.op_count(AllocOp::Free), 2);
    assert_eq!(value_of(&store, "free_count"), 2);
    assert_eq!(value_of(&store, "realloc_count"), 1);
}

#[test]
fn counter_slots_are_distinct_and_in_range() {
    let mut seen = vec![false; COUNTER_SLOTS];
    for op in OPS {
        for d in DOMAINS {
            let i = counter_index(op, d);
            assert!(i < COUNTER_SLOTS);
            assert!(!seen[i]);
            seen[i] = true;
        }
    }
    assert!(seen.iter().all(|b| *b));
}

#[test]
fn from_slots_reads_each_slot() {
    let v: Vec<u64> = (0..COUNTER_SLOTS as u64).map(|i| 10 * i + 1).collect();
    let store = CounterStore::from_slots(&v);
    for op in OPS {
        for d in DOMAINS {
            assert_eq!(store.count(op, d), v[counter_index(op, d)]);
        }
    }
    assert_eq!(store.count(AllocOp::Calloc, AllocatorDomain::Raw), 41);
    assert_eq!(store.op_count(AllocOp::Free), 121 + 131 + 141 + 151);
    assert_eq!(store.total_allocate_count(), (1 + 11 + 21 + 31) + (41 + 51 + 61 + 71));
}

#[test]
fn totals_do_not_overflow() {
    let v: Vec<u64> = vec![u64::MAX; COUNTER_SLOTS];
    let store = CounterStore::from_slots(&v);
    assert_eq!(store.op_count(AllocOp::Malloc), 4 * u64::MAX as u128);
    assert_eq!(store.total_allocate_count(), 8 * u64::MAX as u128);
}

#[test]
fn report_lists_every_counter_in_order() {
    let mut store = CounterStore::new();
    store.record(AllocOp::Malloc, AllocatorDomain::Mem);
    store.record(AllocOp::Realloc, AllocatorDomain::Obj);
    let names: Vec<&str> = store.report().iter().map(|e| e.name).collect();
    assert_eq!(
        names,
        vec![
            "malloc_count",
            "calloc_count",
            "realloc_count",
            "free_count",
            "total_alloc_count",
            "raw_malloc_count",
            "mem_malloc_count",
            "obj_malloc_count",
            "unk_malloc_count",
        ]
    );
    let values: Vec<u128> = store.report().iter().map(|e| e.value).collect();
    assert_eq!(values, vec![1, 0, 1, 0, 1, 0, 1, 0, 0]);
}

#[test]
fn labels_and_metric_names() {
    assert_eq!(get_allocator_str(AllocatorDomain::Raw), "raw");
    assert_eq!(get_allocator_str(AllocatorDomain::Mem), "mem");
    assert_eq!(get_allocator_str(AllocatorDomain::Obj), "obj");
    assert_eq!(get_allocator_str(AllocatorDomain::Unknown), "unk");
    assert_eq!(op_metric_name(AllocOp::Malloc), "mallocs");
    assert_eq!(op_metric_name(AllocOp::Calloc), "callocs");
    assert_eq!(op_metric_name(AllocOp::Realloc), "reallocs");
    assert_eq!(op_metric_name(AllocOp::Free), "frees");
}
