//! A minimal, monotonic ("bump") arena allocator.
//!
//! A [`Heap`] owns a backing byte region, described by a [`Storage`], and an
//! atomic count of unused bytes. Allocation carves naturally aligned blocks
//! from the unused tail of the region with a compare-and-swap retry loop;
//! deallocation is a no-op by design, so capacity only ever shrinks.

mod atomic;

pub mod bump;
pub mod heap;
pub mod laws;
pub mod storage;

pub use heap::AllocError;
pub use heap::Heap;
pub use storage::BoxedSlice;
pub use storage::ConstStorage;
pub use storage::Inline;
pub use storage::Pointer;
pub use storage::Storage;
