//! Trusted boundary around `portable_atomic::AtomicUsize`.
//!
//! The heap's only mutable shared state is its count of unused bytes, held in
//! an atomic so that the host program may drive the allocator from many
//! threads. The contracts below describe each operation over [`atomic_value`],
//! the value an atomic currently holds. They are sound to state in this
//! sequential model because the library never lets a caller reach an atomic
//! directly: every mutation goes through an exclusive reference, so between a
//! read and a write through `&mut` no third party can interfere.

use vstd::prelude::*;

verus! {

#[verifier::external_type_specification]
#[verifier::external_body]
pub struct ExAtomicUsize(portable_atomic::AtomicUsize);

/// The value an atomic counter currently holds.
pub uninterp spec fn atomic_value(a: portable_atomic::AtomicUsize) -> usize;

/// Relies on `portable_atomic::AtomicUsize::new`: the atomic starts out
/// holding `v`.
#[verifier::external_body]
pub(crate) fn atomic_new(v: usize) -> (a: portable_atomic::AtomicUsize)
    ensures
        atomic_value(a) == v,
{
    portable_atomic::AtomicUsize::new(v)
}

/// Relies on `portable_atomic::AtomicUsize::load`: it returns the value the
/// atomic holds.
#[verifier::external_body]
pub(crate) fn atomic_load(a: &portable_atomic::AtomicUsize) -> (r: usize)
    ensures
        r == atomic_value(*a),
{
    a.load(portable_atomic::Ordering::Relaxed)
}

/// Relies on `portable_atomic::AtomicUsize::store`: the atomic holds `v`
/// afterwards.
#[verifier::external_body]
pub(crate) fn atomic_store(a: &mut portable_atomic::AtomicUsize, v: usize)
    ensures
        atomic_value(*final(a)) == v,
{
    a.store(v, portable_atomic::Ordering::Release)
}

/// Relies on `portable_atomic::AtomicUsize::compare_exchange`: on `Ok` the
/// atomic held `current`, which is returned, and holds `new` afterwards; on
/// `Err` the held value differed from `current`, is returned, and nothing
/// changes. A strong exchange never fails spuriously.
#[verifier::external_body]
pub(crate) fn atomic_compare_exchange(
    a: &mut portable_atomic::AtomicUsize,
    current: usize,
    new: usize,
) -> (r: Result<usize, usize>)
    ensures
        (match r {
            Ok(prev) => prev == current && atomic_value(*old(a)) == current && atomic_value(
                *final(a),
            ) == new,
            Err(prev) => prev == atomic_value(*old(a)) && prev != current && *final(a) == *old(a),
        }),
{
    a.compare_exchange(
        current,
        new,
        portable_atomic::Ordering::SeqCst,
        portable_atomic::Ordering::Relaxed,
    )
}

} // verus!
