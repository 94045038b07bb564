//! Construction of bitmasks with a given number of low bits set.

use vstd::arithmetic::power2::{lemma2_to64, lemma2_to64_rest, lemma_pow2_strictly_increases, pow2};
use vstd::bits::{lemma_low_bits_mask_unfold, low_bits_mask};
use vstd::prelude::*;

verus! {

/// The most bits that a `u64` mask can hold.
pub const MAX_MASK_BITS: u64 = 64;

/// A mask of `bits` low ones (`bits <= 64`) is below `2^63` unless it is the
/// full 64-bit mask.
proof fn lemma_low_bits_mask_below_top_bit(bits: nat)
    requires
        bits < 64,
    ensures
        low_bits_mask(bits) < 0x8000_0000_0000_0000,
{
    lemma2_to64();
    lemma2_to64_rest();
    if bits < 63 {
        lemma_pow2_strictly_increases(bits, 63);
    }
}

/// Creates a bitmask from a number that describes how many ones there should
/// be (`0..=64`). The ones are filled in from the right side, one bit at a
/// time, so that a request for all 64 bits never shifts by the full width.
pub fn num_to_bitmask(val: u64) -> (bitmask: u64)
    requires
        val <= MAX_MASK_BITS,
    ensures
        bitmask == low_bits_mask(val as nat),
        val == MAX_MASK_BITS ==> bitmask == u64::MAX,
{
    let mut remaining: u64 = val;
    let mut bitmask: u64 = 0;
    proof {
        lemma2_to64();
    }
    while remaining > 0
        invariant
            remaining <= val <= MAX_MASK_BITS,
            bitmask == low_bits_mask((val - remaining) as nat),
        decreases remaining,
    {
        let ghost done: nat = (val - remaining) as nat;
        proof {
            lemma_low_bits_mask_below_top_bit(done);
            lemma_low_bits_mask_unfold(done + 1);
        }
        assert(bitmask < 0x8000_0000_0000_0000 ==> ((bitmask << 1u64) | 1u64) == 2 * bitmask + 1)
            by (bit_vector);
        bitmask = (bitmask << 1u64) | 1u64;
        remaining = remaining - 1;
        assert((val - remaining) as nat == done + 1);
    }
    proof {
        lemma2_to64();
        lemma2_to64_rest();
    }
    bitmask
}

/// Relies on `bit_ops::bitops_u64::create_mask`: for `bits <= 64` it returns
/// `bits` contiguous low ones (`0` for `0`, `u64::MAX` for `64`); it panics
/// above 64.
#[verifier::external_body]
pub(crate) fn create_mask(bits: u64) -> (mask: u64)
    requires
        bits <= MAX_MASK_BITS,
    ensures
        mask == low_bits_mask(bits as nat),
{
    bit_ops::bitops_u64::create_mask(bits)
}

} // verus!
