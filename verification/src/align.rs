//! Alignment of uniform buffers within a shared buffer.

use vstd::prelude::*;
use vstd::arithmetic::power2::pow2;
use vstd::bits::low_bits_mask;
use vstd::bits::lemma_u64_low_bits_mask_is_mod;
use vstd::bits::lemma_u64_pow2_no_overflow;

verus! {

/// `a` is a power of two that fits in 64 bits.
pub open spec fn is_pow2_u64(a: u64) -> bool {
    exists|k: nat| k < 64 && a == pow2(k)
}

/// Rounds `ubo_size` up to the device's minimum uniform-buffer offset alignment
/// with the mask formula `(size + align - 1) & !(align - 1)`; for an alignment
/// that is a power of two (as Vulkan guarantees) the result is the least multiple
/// of the alignment that is not below `ubo_size`.
pub fn ubo_offset_align(ubo_size: u64, min_ubo_align: u64) -> (r: u64)
    requires
        min_ubo_align >= 1,
        ubo_size + min_ubo_align <= u64::MAX,
    ensures
        r == ((ubo_size + min_ubo_align - 1) as u64) & !((min_ubo_align - 1) as u64),
        is_pow2_u64(min_ubo_align) ==> {
            &&& r % min_ubo_align == 0
            &&& ubo_size <= r
            &&& r < ubo_size + min_ubo_align
        },
{
    let x: u64 = ubo_size + min_ubo_align - 1;
    let m: u64 = min_ubo_align - 1;
    let r = x & !m;
    proof {
        assert(r & m == 0 && r <= x && x - r <= m) by (bit_vector)
            requires r == x & !m;
        if is_pow2_u64(min_ubo_align) {
            let k = choose|k: nat| k < 64 && min_ubo_align == pow2(k);
            lemma_u64_pow2_no_overflow(k);
            assert(m == low_bits_mask(k) as u64);
            lemma_u64_low_bits_mask_is_mod(r, k);
        }
    }
    r
}

} // verus!
