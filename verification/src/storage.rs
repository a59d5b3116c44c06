//! Backing-storage strategies: where the managed byte region lives.
//!
//! A [`Storage`] hands the heap the base address of a stable byte region. The
//! three strategies are a fixed-size buffer embedded by value ([`Inline`]), an
//! externally supplied raw address ([`Pointer`]), and a buffer obtained from
//! the general-purpose allocator at construction time ([`BoxedSlice`]).
//!
//! Addresses are carried as plain `usize` values: this library only does the
//! address arithmetic of the bump algorithm and never reads or writes the
//! bytes themselves.

use core::mem::MaybeUninit;
use vstd::prelude::*;

verus! {

/// Access to the backing byte region.
pub trait Storage: Sized {
    /// The base address of the managed region.
    ///
    /// Every call on a given instance must return the same address: the bytes
    /// must not move once the first address has been observed. The heap asks
    /// once, at construction, and caches the answer, so an [`Inline`] storage
    /// must stay where it was when its heap was built. Asking never changes
    /// the storage itself.
    fn ptr(&mut self) -> (r: usize)
        ensures
            *final(self) == *old(self),
    ;
}

/// A storage with a default value and a size both known up front, so that a
/// heap over it can be built without runtime arguments.
pub trait ConstStorage: Storage {
    /// The size of the managed region.
    spec fn spec_size() -> usize;

    /// The default value of this storage.
    fn init() -> (s: Self);

    /// The size of the managed region.
    fn size() -> (n: usize)
        ensures
            n == Self::spec_size(),
    ;
}

/// Relies on `<[MaybeUninit<u8>]>::as_ptr`: the address of the slice's first
/// element. Which address a buffer lives at is outside this library's model,
/// so nothing is stated of the result.
#[verifier::external_body]
pub(crate) fn bytes_address(bytes: &[MaybeUninit<u8>]) -> usize {
    bytes.as_ptr() as usize
}

/// A fixed-size byte buffer embedded by value; always initialized, zero
/// construction cost.
pub struct Inline<const SIZE: usize> {
    buf: [MaybeUninit<u8>; SIZE],
}

impl<const SIZE: usize> Inline<SIZE> {
    /// A fresh, uninitialized buffer.
    pub fn new() -> (s: Self) {
        Inline { buf: vstd::array::array_fill_for_copy_types(MaybeUninit::uninit()) }
    }
}

impl<const SIZE: usize> ConstStorage for Inline<SIZE> {
    open spec fn spec_size() -> usize {
        SIZE
    }

    fn init() -> (s: Self) {
        Inline::new()
    }

    fn size() -> (n: usize) {
        SIZE
    }
}

impl<const SIZE: usize> Storage for Inline<SIZE> {
    fn ptr(&mut self) -> usize {
        bytes_address(self.buf.as_slice())
    }
}

/// A raw externally supplied base address. Until the one-time initialization
/// supplies a real address, it holds a dangling placeholder that is never
/// dereferenced, and the heap over it has capacity zero.
pub struct Pointer {
    addr: usize,
}

impl Pointer {
    /// The address this storage hands out.
    pub closed spec fn address(self) -> usize {
        self.addr
    }

    /// The uninitialized state: a dangling, well-aligned placeholder address,
    /// as `core::ptr::NonNull::dangling` would give for bytes.
    pub fn empty() -> (p: Self)
        ensures
            p.address() == 1,
    {
        Pointer { addr: 1 }
    }

    /// The initialized state, at the caller-supplied base address.
    pub(crate) fn with_address(addr: usize) -> (p: Self)
        ensures
            p.address() == addr,
    {
        Pointer { addr }
    }
}

impl Storage for Pointer {
    fn ptr(&mut self) -> (r: usize)
        ensures
            r == old(self).address(),
    {
        self.addr
    }
}

/// A byte buffer of runtime-chosen size, obtained once from the
/// general-purpose allocator, owned exclusively and released when the heap is
/// destroyed.
pub struct BoxedSlice {
    buf: Vec<MaybeUninit<u8>>,
}

impl BoxedSlice {
    /// The size of the owned buffer.
    pub closed spec fn spec_len(self) -> nat {
        self.buf@.len()
    }

    /// A fresh buffer of `size` uninitialized bytes from the general-purpose
    /// allocator.
    pub(crate) fn new(size: usize) -> (s: Self)
        ensures
            s.spec_len() == size,
    {
        let mut buf: Vec<MaybeUninit<u8>> = Vec::new();
        let mut i: usize = 0;
        while i < size
            invariant
                i <= size,
                buf@.len() == i,
            decreases size - i,
        {
            buf.push(MaybeUninit::uninit());
            i = i + 1;
        }
        BoxedSlice { buf }
    }
}

impl Storage for BoxedSlice {
    fn ptr(&mut self) -> usize {
        bytes_address(self.buf.as_slice())
    }
}

} // verus!
