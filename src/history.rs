//! Sequences of intercepted calls and what the counter store shows after them.
use crate::counters::CounterStore;
use crate::domain::{AllocOp, AllocatorDomain};
use vstd::prelude::*;

verus! {

/// The store after counting each call of `calls`, in order, from `start`.
pub open spec fn replay(start: CounterStore, calls: Seq<(AllocOp, AllocatorDomain)>) -> CounterStore
    decreases calls.len(),
{
    if calls.len() == 0 {
        start
    } else {
        let (op, d) = calls.last();
        replay(start, calls.drop_last()).recorded(op, d)
    }
}

/// One allocate call in each of the given domains.
pub open spec fn allocate_calls(domains: Seq<AllocatorDomain>) -> Seq<(AllocOp, AllocatorDomain)> {
    domains.map_values(|d: AllocatorDomain| (AllocOp::Malloc, d))
}

/// All counts of all operations, added up.
pub open spec fn total_calls(s: CounterStore) -> int {
    s.malloc.sum() + s.calloc.sum() + s.realloc.sum() + s.free.sum()
}

/// For any sequence of N allocate calls, whatever their domains, counted
/// from a fresh store: the total of allocate and zero-allocate calls is N,
/// and so is the sum of the per-domain allocate counts.
pub proof fn lemma_allocate_calls_counted(domains: Seq<AllocatorDomain>)
    requires
        domains.len() <= u64::MAX,
    ensures
        replay(CounterStore::zeroed(), allocate_calls(domains)).total_allocate() == domains.len(),
        replay(CounterStore::zeroed(), allocate_calls(domains)).malloc.sum() == domains.len(),
    decreases domains.len(),
{
    let s = replay(CounterStore::zeroed(), allocate_calls(domains));
    if domains.len() > 0 {
        let prev = domains.drop_last();
        assert(allocate_calls(domains).drop_last() =~= allocate_calls(prev));
        lemma_allocate_calls_counted(prev);
        lemma_replay_counts_all(allocate_calls(prev));
    }
    lemma_replay_counts_all(allocate_calls(domains));
    lemma_allocate_calls_only_malloc(domains);
}

/// Counting from a fresh store, every call lands in exactly one count.
proof fn lemma_replay_counts_all(calls: Seq<(AllocOp, AllocatorDomain)>)
    requires
        calls.len() <= u64::MAX,
    ensures
        total_calls(replay(CounterStore::zeroed(), calls)) == calls.len(),
    decreases calls.len(),
{
    if calls.len() > 0 {
        lemma_replay_counts_all(calls.drop_last());
    }
}

/// Only allocate calls: every other operation's count stays zero.
proof fn lemma_allocate_calls_only_malloc(domains: Seq<AllocatorDomain>)
    ensures
        replay(CounterStore::zeroed(), allocate_calls(domains)).calloc.sum() == 0,
        replay(CounterStore::zeroed(), allocate_calls(domains)).realloc.sum() == 0,
        replay(CounterStore::zeroed(), allocate_calls(domains)).free.sum() == 0,
    decreases domains.len(),
{
    if domains.len() > 0 {
        let prev = domains.drop_last();
        assert(allocate_calls(domains).drop_last() =~= allocate_calls(prev));
        lemma_allocate_calls_only_malloc(prev);
    }
}

/// A call with the block it concerns: the block handed out by an allocate,
/// zero-allocate or reallocate call, or the block a release call gives back.
pub type BlockCall = (AllocOp, AllocatorDomain, nat);

/// The calls of a block trace, without their blocks.
pub open spec fn calls_of(trace: Seq<BlockCall>) -> Seq<(AllocOp, AllocatorDomain)> {
    trace.map_values(|c: BlockCall| (c.0, c.1))
}

/// The blocks handed out and not yet released after a block trace.
pub open spec fn live_blocks(trace: Seq<BlockCall>) -> Set<nat>
    decreases trace.len(),
{
    if trace.len() == 0 {
        Set::empty()
    } else {
        let (op, _d, b) = trace.last();
        let prev = live_blocks(trace.drop_last());
        if op == AllocOp::Free {
            prev.remove(b)
        } else {
            prev.insert(b)
        }
    }
}

/// Every release in the trace gives back a block that an earlier call of
/// the trace handed out and that was not released since.
pub open spec fn releases_matched(trace: Seq<BlockCall>) -> bool
    decreases trace.len(),
{
    trace.len() == 0 || {
        let (op, _d, b) = trace.last();
        &&& releases_matched(trace.drop_last())
        &&& (op == AllocOp::Free ==> live_blocks(trace.drop_last()).contains(b))
    }
}

/// In a single-threaded trace counted from a fresh store in which every
/// release gives back a block that the trace handed out, the release count
/// never exceeds allocate plus zero-allocate plus reallocate counts.
pub proof fn lemma_releases_bounded(trace: Seq<BlockCall>)
    requires
        trace.len() <= u64::MAX,
        releases_matched(trace),
    ensures
        replay(CounterStore::zeroed(), calls_of(trace)).free.sum() <= replay(
            CounterStore::zeroed(),
            calls_of(trace),
        ).producing_calls(),
{
    lemma_live_blocks_accounted(trace);
}

/// The live blocks and the releases together are at most the calls that
/// handed out a block.
proof fn lemma_live_blocks_accounted(trace: Seq<BlockCall>)
    requires
        trace.len() <= u64::MAX,
        releases_matched(trace),
    ensures
        live_blocks(trace).finite(),
        live_blocks(trace).len() + replay(CounterStore::zeroed(), calls_of(trace)).free.sum()
            <= replay(CounterStore::zeroed(), calls_of(trace)).producing_calls(),
    decreases trace.len(),
{
    lemma_replay_counts_all(calls_of(trace));
    if trace.len() > 0 {
        let prev = trace.drop_last();
        assert(calls_of(trace).drop_last() =~= calls_of(prev));
        lemma_live_blocks_accounted(prev);
        lemma_replay_counts_all(calls_of(prev));
    }
}

} // verus!
