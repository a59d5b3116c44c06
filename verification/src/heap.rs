//! The allocation engine: an atomic bump allocator over one storage.
//!
//! A [`Heap`] owns its storage, caches the region's base address once at
//! construction, and keeps the count of unused bytes in an atomic. Allocation
//! carves a naturally aligned block from the unused tail with a
//! compare-and-swap retry loop; it never blocks and fails only on exhaustion.
//! Deallocation is a no-op: the arena never reclaims individual blocks.

use crate::atomic::atomic_compare_exchange;
use crate::atomic::atomic_load;
use crate::atomic::atomic_new;
use crate::atomic::atomic_store;
use crate::atomic::atomic_value;
use crate::bump::alloc_result;
use crate::bump::is_power_of_two;
use crate::bump::lemma_mask_rounds_down;
use crate::bump::lemma_power_of_two_pos;
use crate::storage::BoxedSlice;
use crate::storage::ConstStorage;
use crate::storage::Pointer;
use crate::storage::Storage;
use vstd::prelude::*;

verus! {

/// The failure of one allocation request: the heap is exhausted.
#[derive(Clone, Copy, Debug, PartialEq, Eq, Structural)]
pub struct AllocError;

/// The allocator: one storage, one atomic count of unused bytes.
///
/// At all times the bytes at offsets `[0, remaining)` of the managed region
/// are unallocated and the bytes at `[remaining, total_size)` have been handed
/// out; `remaining` only ever decreases.
pub struct Heap<S: Storage> {
    storage: S,
    base_addr: usize,
    remained: portable_atomic::AtomicUsize,
    total: Ghost<usize>,
}

impl<S: Storage> Heap<S> {
    /// The fixed size of the managed region.
    pub closed spec fn total_size(self) -> usize {
        self.total@
    }

    /// The current count of unused bytes, in `[0, total_size]`.
    pub closed spec fn remaining(self) -> usize {
        atomic_value(self.remained)
    }

    /// The cached base address of the managed region.
    pub closed spec fn base(self) -> usize {
        self.base_addr
    }

    /// The storage behind the heap. Allocation only reads it — in fact only
    /// the cached base address — so every operation but the one-time
    /// initialization leaves it untouched.
    pub closed spec fn storage_view(self) -> S {
        self.storage
    }

    /// The heap's invariant: the unused tail fits in the region, and the
    /// region's end fits in the address space.
    pub open spec fn wf(self) -> bool {
        self.remaining() <= self.total_size() && self.base() + self.total_size() <= usize::MAX
    }

    /// A new heap over `storage`, declaring `size` managed bytes.
    ///
    /// The caller asserts that `size` is correct for `storage`; the storage is
    /// asked for its base address once, here, and never again.
    pub fn new_with_storage(storage: S, size: usize) -> (h: Self)
        ensures
            h.total_size() == size,
            h.remaining() == size,
            h.storage_view() == storage,
            h.wf(),
    {
        let mut storage = storage;
        let b = storage.ptr();
        // A region of `size` bytes at `b` lies inside the address space, so in
        // practice its end fits; the bound keeps the address arithmetic total.
        let base_addr = if b <= usize::MAX - size {
            b
        } else {
            usize::MAX - size
        };
        Heap { storage, base_addr, remained: atomic_new(size), total: Ghost(size) }
    }

    /// The amount of unused bytes.
    pub fn remained(&self) -> (r: usize)
        ensures
            r == self.remaining(),
    {
        atomic_load(&self.remained)
    }

    /// The base address of the managed region, as cached at construction.
    pub fn base_address(&self) -> (r: usize)
        ensures
            r == self.base(),
    {
        self.base_addr
    }

    /// Carve `size` bytes, aligned to `align`, from the unused tail of the
    /// region, and hand back the block's address, or `None` when the request
    /// exceeds the remaining capacity. The new count of unused bytes is
    /// `remaining - size` rounded down to the alignment boundary; the rounding
    /// may consume extra bytes, which are never reclaimed.
    pub fn raw_alloc(&mut self, size: usize, align: usize) -> (r: Option<usize>)
        requires
            old(self).wf(),
            is_power_of_two(align),
        ensures
            final(self).wf(),
            final(self).base() == old(self).base(),
            final(self).total_size() == old(self).total_size(),
            final(self).storage_view() == old(self).storage_view(),
            final(self).remaining() <= old(self).remaining(),
            (match r {
                Some(addr) => {
                    &&& alloc_result(old(self).remaining(), size, align) == Some(
                        final(self).remaining(),
                    )
                    &&& size <= old(self).remaining()
                    &&& addr == old(self).base() + final(self).remaining()
                    &&& final(self).remaining() + size <= old(self).remaining()
                    &&& (final(self).remaining() as int) % (align as int) == 0
                    &&& old(self).base() <= addr
                    &&& addr + size <= old(self).base() + old(self).total_size()
                },
                None => {
                    &&& size > old(self).remaining()
                    &&& *final(self) == *old(self)
                },
            }),
    {
        proof {
            lemma_power_of_two_pos(align);
        }
        let align_mask_to_round_down: usize = !(align - 1);
        let mut observed = atomic_load(&self.remained);
        loop
            invariant
                *self == *old(self),
                self.wf(),
                is_power_of_two(align),
                align >= 1,
                align_mask_to_round_down == !((align - 1) as usize),
                observed == self.remaining(),
            decreases observed,
        {
            if size > observed {
                return None;
            }
            let candidate = (observed - size) & align_mask_to_round_down;
            proof {
                lemma_mask_rounds_down((observed - size) as usize, align);
            }
            match atomic_compare_exchange(&mut self.remained, observed, candidate) {
                Err(x) => {
                    // A failed exchange means the count changed between the
                    // load and the exchange; under an exclusive borrow nothing
                    // else can touch it, so this arm is unreachable, and the
                    // retry loop terminates.
                    proof {
                        assert(false);
                    }
                    observed = x;
                },
                Ok(_) => {
                    return Some(self.base_addr + candidate);
                },
            }
        }
    }

    /// A no-op by design: the arena never reclaims individual blocks, so
    /// deallocating changes nothing.
    pub fn dealloc(&mut self, _address: usize, _size: usize, _align: usize)
        ensures
            *final(self) == *old(self),
    {
    }

    /// The typed, fallible allocation interface: a zero-sized request
    /// trivially succeeds with a dangling, well-aligned address and length
    /// zero, never touching the backing store; any other request delegates to
    /// [`Heap::raw_alloc`], and exhaustion becomes a structured error. On success
    /// the result is the block's address and its usable length.
    pub fn allocate(&mut self, size: usize, align: usize) -> (r: Result<(usize, usize), AllocError>)
        requires
            old(self).wf(),
            is_power_of_two(align),
        ensures
            final(self).wf(),
            final(self).base() == old(self).base(),
            final(self).total_size() == old(self).total_size(),
            final(self).storage_view() == old(self).storage_view(),
            r is Err <==> (size > 0 && size > old(self).remaining()),
            (match r {
                Ok((addr, len)) => {
                    if size == 0 {
                        addr == align && len == 0 && *final(self) == *old(self)
                    } else {
                        &&& len == size
                        &&& alloc_result(old(self).remaining(), size, align) == Some(
                            final(self).remaining(),
                        )
                        &&& addr == old(self).base() + final(self).remaining()
                    }
                },
                Err(e) => *final(self) == *old(self),
            }),
    {
        if size == 0 {
            // `core::alloc::Layout::dangling` gives the alignment itself as a
            // well-aligned, non-null placeholder address.
            Ok((align, 0))
        } else {
            match self.raw_alloc(size, align) {
                Some(addr) => Ok((addr, size)),
                None => Err(AllocError),
            }
        }
    }

    /// The typed deallocation interface: a no-op, like [`Heap::dealloc`].
    pub fn deallocate(&mut self, address: usize, size: usize, align: usize)
        ensures
            *final(self) == *old(self),
    {
        if size != 0 {
            self.dealloc(address, size, align);
        }
    }
}

impl<S: ConstStorage> Heap<S> {
    /// A new heap over the storage type's default value and declared size.
    pub fn new() -> (h: Self)
        ensures
            h.total_size() == S::spec_size(),
            h.remaining() == S::spec_size(),
            h.wf(),
    {
        Self::new_with_storage(S::init(), S::size())
    }
}

impl Heap<BoxedSlice> {
    /// A new heap over a buffer of `size` bytes from the general-purpose
    /// allocator.
    pub fn new_boxed(size: usize) -> (h: Self)
        ensures
            h.total_size() == size,
            h.remaining() == size,
            h.storage_view().spec_len() == size,
            h.wf(),
    {
        Self::new_with_storage(BoxedSlice::new(size), size)
    }
}

impl Heap<Pointer> {
    /// An empty heap: capacity zero over the dangling placeholder address,
    /// waiting for [`Heap::init_with_ptr`].
    pub fn empty() -> (h: Self)
        ensures
            h.total_size() == 0,
            h.remaining() == 0,
            h.base() == 1,
            h.storage_view().address() == 1,
            h.wf(),
    {
        let mut storage = Pointer::empty();
        let base_addr = storage.ptr();
        Heap { storage, base_addr, remained: atomic_new(0), total: Ghost(0) }
    }

    /// The one-time initialization of an empty heap: supply the real base
    /// address and size of the managed region.
    ///
    /// The caller asserts that `address` points to `size` valid bytes, so the
    /// region's end fits in the address space; requiring the heap to still be
    /// empty rules out a second call and any call after an allocation.
    pub fn init_with_ptr(&mut self, address: usize, size: usize)
        requires
            old(self).total_size() == 0,
            address + size <= usize::MAX,
        ensures
            final(self).total_size() == size,
            final(self).remaining() == size,
            final(self).base() == address,
            final(self).storage_view().address() == address,
            final(self).wf(),
    {
        self.storage = Pointer::with_address(address);
        self.base_addr = address;
        atomic_store(&mut self.remained, size);
        self.total = Ghost(size);
    }
}

} // verus!
