//! The laws of the allocator, proved once and for all inputs.
//!
//! Each proof function below states a property of [`alloc_result`], the pure
//! outcome that [`Heap::raw_alloc`](crate::heap::Heap::raw_alloc) is verified
//! to follow, so each holds of every allocation a heap ever performs.

use crate::bump::alloc_result;
use crate::bump::is_power_of_two;
use crate::bump::lemma_mask_rounds_down;
use crate::heap::Heap;
use crate::storage::Storage;
use vstd::arithmetic::div_mod::lemma_add_mod_noop;
use vstd::prelude::*;

verus! {

/// Law: `remained` is non-increasing over any sequence of allocations — a
/// successful one leaves at most `remained - size` unused bytes (and being a
/// count, it never drops below zero), while a failed one is exactly an
/// oversized request and changes nothing.
pub proof fn lemma_remaining_monotonic(remained: usize, size: usize, align: usize)
    requires
        is_power_of_two(align),
    ensures
        (match alloc_result(remained, size, align) {
            Some(new_remained) => new_remained + size <= remained,
            None => size > remained,
        }),
{
    if size <= remained {
        lemma_mask_rounds_down((remained - size) as usize, align);
    }
}

/// The count of unused bytes after a whole sequence of allocation requests,
/// each a `(size, align)` pair, starting from `r0`: a request that fits lowers
/// the count as [`alloc_result`] says, a request that does not leaves it
/// unchanged.
pub open spec fn remaining_after(r0: usize, requests: Seq<(usize, usize)>) -> usize
    decreases requests.len(),
{
    if requests.len() == 0 {
        r0
    } else {
        let prev = remaining_after(r0, requests.drop_last());
        match alloc_result(prev, requests.last().0, requests.last().1) {
            Some(new_remained) => new_remained,
            None => prev,
        }
    }
}

/// Law: over any sequence of allocate calls, successful or not, the count of
/// unused bytes never increases — any later prefix of the request sequence
/// leaves at most as much as any earlier one.
pub proof fn lemma_sequence_monotonic(r0: usize, requests: Seq<(usize, usize)>, i: int, j: int)
    requires
        forall|k: int| 0 <= k < requests.len() ==> is_power_of_two(#[trigger] requests[k].1),
        0 <= i <= j <= requests.len(),
    ensures
        remaining_after(r0, requests.take(j)) <= remaining_after(r0, requests.take(i)),
    decreases j - i,
{
    if i < j {
        lemma_sequence_monotonic(r0, requests, i, j - 1);
        let shorter = requests.take(j - 1);
        let longer = requests.take(j);
        assert(longer.drop_last() =~= shorter);
        lemma_remaining_monotonic(remaining_after(r0, shorter), longer.last().0, longer.last().1);
    }
}

/// Law: the new count of unused bytes after a successful allocation is a
/// multiple of the alignment, so when the region's base address is itself
/// aligned, the granted block's address `base + new_remained` is aligned too.
pub proof fn lemma_address_aligned(
    base: usize,
    remained: usize,
    size: usize,
    align: usize,
    new_remained: usize,
)
    requires
        is_power_of_two(align),
        alloc_result(remained, size, align) == Some(new_remained),
        (base as int) % (align as int) == 0,
    ensures
        (new_remained as int) % (align as int) == 0,
        ((base + new_remained) as int) % (align as int) == 0,
{
    lemma_mask_rounds_down((remained - size) as usize, align);
    lemma_add_mod_noop(base as int, new_remained as int, align as int);
    vstd::arithmetic::div_mod::lemma_small_mod(0, align as nat);
    assert(((base as int) + (new_remained as int)) % (align as int) == 0);
}

/// Law: exhaustion is permanent — once a request was too large for the
/// remaining capacity, it stays too large after any further allocations,
/// since the count of unused bytes never grows.
pub proof fn lemma_exhaustion_permanent(
    remained_then: usize,
    remained_now: usize,
    size: usize,
    align: usize,
)
    requires
        remained_now <= remained_then,
        size > remained_then,
    ensures
        alloc_result(remained_now, size, align) is None,
{
}

/// Law: blocks granted by successive successful allocations are disjoint. The
/// first allocation grants the offsets `[r1, r0)`, the second `[r2, r1)`: no
/// offset `o`, and hence no byte of the region, lies in both, so each byte is
/// handed out at most once.
pub proof fn lemma_blocks_disjoint(
    r0: usize,
    size1: usize,
    align1: usize,
    r1: usize,
    size2: usize,
    align2: usize,
    r2: usize,
    o: int,
)
    requires
        is_power_of_two(align1),
        is_power_of_two(align2),
        alloc_result(r0, size1, align1) == Some(r1),
        alloc_result(r1, size2, align2) == Some(r2),
    ensures
        r1 + size1 <= r0,
        r2 + size2 <= r1,
        !(r1 <= o < r0 && r2 <= o < r1),
{
    lemma_remaining_monotonic(r0, size1, align1);
    lemma_remaining_monotonic(r1, size2, align2);
}

/// Law: any two blocks granted along one request sequence are disjoint, so
/// each byte of the region is handed out at most once. The request at
/// position `k`, when it succeeds, grants the offsets from the count it left
/// behind up to the count it found; no offset `o` lies in two such blocks.
pub proof fn lemma_all_blocks_disjoint(
    r0: usize,
    requests: Seq<(usize, usize)>,
    k: int,
    l: int,
    o: int,
)
    requires
        forall|m: int| 0 <= m < requests.len() ==> is_power_of_two(#[trigger] requests[m].1),
        0 <= k < l < requests.len(),
    ensures
        !(remaining_after(r0, requests.take(k + 1)) <= o < remaining_after(r0, requests.take(k))
            && remaining_after(r0, requests.take(l + 1)) <= o < remaining_after(
            r0,
            requests.take(l),
        )),
{
    lemma_sequence_monotonic(r0, requests, k + 1, l);
}

/// Law: storage-variant equivalence — the outcome of an allocation depends
/// only on the count of unused bytes and the request, never on the storage
/// behind the heap, so heaps over different storages with equal counts yield
/// identical offsets and identical remaining-capacity sequences under the
/// same requests.
pub proof fn lemma_storage_variant_equivalence<S1: Storage, S2: Storage>(
    h1: Heap<S1>,
    h2: Heap<S2>,
    size: usize,
    align: usize,
)
    requires
        h1.remaining() == h2.remaining(),
    ensures
        alloc_result(h1.remaining(), size, align) == alloc_result(h2.remaining(), size, align),
{
}

} // verus!
