use bump_heap::AllocError;
use bump_heap::Heap;
use bump_heap::Inline;
use bump_heap::Storage;

/// The concrete scenario over a 100-byte region: two successful aligned
/// requests at offsets 88 and 84, then an oversized request that fails and
/// changes nothing.
#[test]
fn scenario_hundred_bytes() {
    let mut heap: Heap<Inline<100>> = Heap::new();
    let base = heap.base_address();

    let a1 = heap.raw_alloc(8, 8).unwrap();
    assert_eq!(a1, base + 88);
    assert_eq!(heap.remained(), 88);

    let a2 = heap.raw_alloc(4, 4).unwrap();
    assert_eq!(a2, base + 84);
    assert_eq!(heap.remained(), 84);

    assert_eq!(heap.raw_alloc(90, 1), None);
    assert_eq!(heap.remained(), 84);
}

/// An oversized request always fails without modifying `remained`, and stays
/// failing once the heap is exhausted.
#[test]
fn exhaustion_fails_without_change() {
    let mut heap: Heap<Inline<16>> = Heap::new();
    assert_eq!(heap.raw_alloc(17, 1), None);
    assert_eq!(heap.remained(), 16);

    assert!(heap.raw_alloc(16, 1).is_some());
    assert_eq!(heap.remained(), 0);
    assert_eq!(heap.raw_alloc(1, 1), None);
    assert_eq!(heap.remained(), 0);
}

/// `remained` is non-increasing over any sequence of allocate calls and
/// reaches zero exactly at capacity exhaustion.
#[test]
fn remained_monotonic() {
    let mut heap: Heap<Inline<64>> = Heap::new();
    let requests: [(usize, usize); 6] = [(3, 1), (5, 4), (1, 2), (40, 8), (9, 2), (7, 1)];
    let mut last = heap.remained();
    for (size, align) in requests {
        heap.raw_alloc(size, align);
        let now = heap.remained();
        assert!(now <= last);
        last = now;
    }
    assert!(heap.raw_alloc(64, 1).is_none());
}

/// The three storage variants produce identical allocation offsets and
/// remaining-capacity sequences for the same request sequence.
#[test]
fn storage_variant_equivalence() {
    let requests: [(usize, usize); 5] = [(8, 8), (4, 4), (90, 1), (3, 2), (81, 1)];

    let mut inline: Heap<Inline<100>> = Heap::new();
    let mut raw = Heap::empty();
    raw.init_with_ptr(0x2000, 100);
    let mut boxed = Heap::new_boxed(100);

    for (size, align) in requests {
        let o1 = inline.raw_alloc(size, align).map(|a| a - inline.base_address());
        let o2 = raw.raw_alloc(size, align).map(|a| a - raw.base_address());
        let o3 = boxed.raw_alloc(size, align).map(|a| a - boxed.base_address());
        assert_eq!(o1, o2);
        assert_eq!(o2, o3);
        assert_eq!(inline.remained(), raw.remained());
        assert_eq!(raw.remained(), boxed.remained());
    }
}

/// Every returned address is aligned as requested (the base here is itself
/// well aligned), lies within the managed region, and successive blocks never
/// overlap.
#[test]
fn blocks_aligned_and_disjoint() {
    let mut heap = Heap::empty();
    heap.init_with_ptr(0x4000, 100);
    let base = heap.base_address();

    let mut granted: Vec<(usize, usize)> = Vec::new();
    let mut before = heap.remained();
    let requests: [(usize, usize); 4] = [(5, 4), (16, 16), (1, 1), (30, 8)];
    for (size, align) in requests {
        if let Some(addr) = heap.raw_alloc(size, align) {
            let after = heap.remained();
            assert_eq!(addr % align, 0);
            assert!(base <= addr && addr + size <= base + 100);
            // the block actually granted runs to the previous tail
            granted.push((addr, base + before));
            before = after;
        }
    }
    for i in 0..granted.len() {
        for j in 0..granted.len() {
            if i != j {
                let (s1, e1) = granted[i];
                let (s2, e2) = granted[j];
                assert!(e1 <= s2 || e2 <= s1);
            }
        }
    }
}

/// Deallocate is a no-op: any number of calls changes neither `remained` nor
/// the outcome of future allocations.
#[test]
fn deallocate_is_noop() {
    let mut heap: Heap<Inline<100>> = Heap::new();
    let base = heap.base_address();
    let addr = heap.raw_alloc(8, 8).unwrap();
    for _ in 0..10 {
        heap.dealloc(addr, 8, 8);
        heap.deallocate(addr, 8, 8);
        assert_eq!(heap.remained(), 88);
    }
    let next = heap.raw_alloc(4, 4).unwrap();
    assert_eq!(next, base + 84);
    assert_eq!(heap.remained(), 84);
}

/// The typed interface: zero-sized requests trivially succeed with a dangling
/// well-aligned address, others delegate, and exhaustion is a structured
/// error.
#[test]
fn typed_allocate() {
    let mut heap: Heap<Inline<32>> = Heap::new();
    assert_eq!(heap.allocate(0, 8), Ok((8, 0)));
    assert_eq!(heap.remained(), 32);

    let (addr, len) = heap.allocate(8, 8).unwrap();
    assert_eq!(addr, heap.base_address() + 24);
    assert_eq!(len, 8);

    assert_eq!(heap.allocate(33, 1), Err(AllocError));
    assert_eq!(heap.remained(), 24);

    heap.deallocate(addr, 8, 8);
    heap.deallocate(addr, 0, 8);
    assert_eq!(heap.remained(), 24);
}

/// A zero-sized raw request succeeds even on an empty heap, consuming nothing.
#[test]
fn zero_size_on_empty() {
    let mut heap = Heap::empty();
    assert_eq!(heap.remained(), 0);
    assert_eq!(heap.base_address(), 1);
    assert_eq!(heap.raw_alloc(1, 1), None);
    let addr = heap.raw_alloc(0, 1).unwrap();
    assert_eq!(addr, heap.base_address());
    assert_eq!(heap.remained(), 0);
}

/// A storage hands out a stable base address, and the heap caches it.
#[test]
fn storage_addresses_are_stable() {
    let mut inline: Inline<16> = Inline::new();
    let p0 = inline.ptr();
    let p1 = inline.ptr();
    assert_eq!(p0, p1);

    let heap = Heap::new_with_storage(inline, 16);
    assert_eq!(heap.base_address(), heap.base_address());
    assert_eq!(heap.remained(), 16);
}
