//! The arithmetic of bump allocation, stated over plain values.
//!
//! One allocation attempt is a pure function of the current count of unused
//! bytes and the request: either the request does not fit, or the count drops
//! to `remained - size` rounded down to the alignment boundary. The heap's
//! compare-and-swap loop is verified against [`alloc_result`].

use vstd::arithmetic::div_mod::lemma_fundamental_div_mod;
use vstd::arithmetic::div_mod::lemma_mod_multiples_basic;
use vstd::arithmetic::power2::lemma_pow2_pos;
use vstd::arithmetic::power2::pow2;
use vstd::bits::lemma_usize_low_bits_mask_is_mod;
use vstd::bits::low_bits_mask;
use vstd::prelude::*;

verus! {

/// A valid alignment is a power of two that fits in an address.
pub open spec fn is_power_of_two(align: usize) -> bool {
    exists|k: nat| k < usize::BITS && align == pow2(k)
}

/// `x` rounded down to the nearest multiple of `align`.
pub open spec fn round_down(x: usize, align: usize) -> int
    recommends
        align >= 1,
{
    (x as int) - ((x as int) % (align as int))
}

/// The outcome of one allocation attempt against `remained` unused bytes:
/// `None` when the request does not fit, otherwise the new count of unused
/// bytes, which doubles as the offset of the granted block from the region's
/// base.
pub open spec fn alloc_result(remained: usize, size: usize, align: usize) -> Option<usize>
    recommends
        align >= 1,
{
    if size > remained {
        None
    } else {
        Some(round_down((remained - size) as usize, align) as usize)
    }
}

/// A power of two is at least one.
pub proof fn lemma_power_of_two_pos(align: usize)
    requires
        is_power_of_two(align),
    ensures
        align >= 1,
{
    let k = choose|k: nat| k < usize::BITS && align == pow2(k);
    lemma_pow2_pos(k);
}

/// Masking with `!(align - 1)` rounds down to a multiple of `align`, for any
/// power-of-two alignment.
pub proof fn lemma_mask_rounds_down(x: usize, align: usize)
    requires
        is_power_of_two(align),
    ensures
        align >= 1,
        (x & (!((align - 1) as usize))) == round_down(x, align),
        0 <= round_down(x, align) <= x,
        round_down(x, align) % (align as int) == 0,
{
    let k = choose|k: nat| k < usize::BITS && align == pow2(k);
    lemma_pow2_pos(k);
    lemma_usize_low_bits_mask_is_mod(x, k);
    let m = (align - 1) as usize;
    assert(m == low_bits_mask(k) as usize);
    assert((x & m) == x % align);
    assert((x & (!m)) + (x & m) == x) by (bit_vector);
    let q = (x as int) / (align as int);
    lemma_fundamental_div_mod(x as int, align as int);
    assert(round_down(x, align) == q * (align as int));
    lemma_mod_multiples_basic(q, align as int);
}

} // verus!
