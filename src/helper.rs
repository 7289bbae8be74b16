use vstd::arithmetic::power2::{lemma_pow2_pos, pow2};
use vstd::bits::{lemma_u64_low_bits_mask_is_mod, low_bits_mask};
use vstd::prelude::*;

verus! {

/// `a` is a power of two that fits in 64 bits.
pub open spec fn is_power_of_two(a: u64) -> bool {
    exists|n: nat| n < 64 && a == pow2(n)
}

/// Rounds the address `p` down to the nearest multiple of `alignment`.
///
/// Used, for example, to find the start of the memory page that an address
/// points into.
pub fn align_to(p: u64, alignment: u64) -> (r: u64)
    requires
        is_power_of_two(alignment),
    ensures
        r == p - p % alignment,
        r <= p,
        r % alignment == 0,
        p - r < alignment,
{
    let ghost n: nat = choose|n: nat| n < 64 && alignment == pow2(n);
    proof {
        lemma_pow2_pos(n);
    }
    let mask: u64 = alignment - 1;
    let r = p & !mask;
    proof {
        assert(low_bits_mask(n) == mask);
        lemma_u64_low_bits_mask_is_mod(p, n);
        lemma_u64_low_bits_mask_is_mod(r, n);
        assert(r & mask == 0 && r + (p & mask) == p) by (bit_vector)
            requires
                r == p & !mask,
        ;
    }
    r
}

} // verus!
