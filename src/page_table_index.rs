//! Calculation of the index into the page table of one level, for a virtual
//! address and given paging characteristics.

use crate::addr_width::AddrWidth;
use crate::bitmask::{create_mask, MAX_MASK_BITS};
use crate::cli::VirtualAddress;
use vstd::arithmetic::div_mod::{lemma_basic_div, lemma_mod_breakdown, lemma_small_mod, lemma_mod_multiples_basic, lemma_mod_pos_bound};
use vstd::arithmetic::mul::{lemma_mul_is_commutative, lemma_mul_strict_inequality};
use vstd::arithmetic::power2::{
    lemma2_to64, lemma2_to64_rest, lemma_pow2_adds, lemma_pow2_pos, lemma_pow2_strictly_increases,
    pow2,
};
use vstd::bits::{
    lemma_u64_low_bits_mask_is_mod, lemma_u64_mul_pow2_le_max_iff_max_shr, lemma_u64_pow2_no_overflow,
    lemma_u64_shl_is_mul, lemma_u64_shr_is_div, low_bits_mask,
};
use vstd::prelude::*;

verus! {

/// Contains the page table lookup meta info for a virtual address and a
/// certain level. Meta means that only information for the lookup itself is
/// included, not the lookup itself.
#[derive(Debug)]
pub struct PageTableLookupMetaInfo {
    /// Virtual address used to get the lookup info.
    pub v_addr: VirtualAddress,
    /// Used level for the lookup.
    pub level: u64,
    /// Index into the page table. Between 0 and N-1, where N is the amount of
    /// entries of the page table.
    pub index: u64,
    /// Amount of bits needed for a shift of the virtual address so that the
    /// index bits stand on the right-most position.
    pub shift: u64,
    /// Like `v_addr` but all bits irrelevant for the given level are zeroes.
    pub relevant_part_of_addr: u64,
}

/// The value of `address` that a paging implementation with addresses of
/// `addr_width` reads: its low 32 bits for 32-bit addresses, all of it
/// otherwise.
pub open spec fn effective_address(address: u64, addr_width: AddrWidth) -> nat {
    match addr_width {
        AddrWidth::Bits32 => (address % 0x1_0000_0000) as nat,
        AddrWidth::Bits64 => address as nat,
    }
}

/// Position of the lowest bit of the index field of `level`: level 1 sits just
/// above the page offset, and each higher level one field further left.
pub open spec fn level_shift(index_bits: u64, page_offset_bits: u64, level: u64) -> int {
    index_bits * (level - 1) + page_offset_bits
}

/// The index into the table of `level`: the `index_bits` bits of the address
/// that start at the level's shift.
pub open spec fn level_index(
    index_bits: u64,
    page_offset_bits: u64,
    address: u64,
    level: u64,
    addr_width: AddrWidth,
) -> nat {
    (effective_address(address, addr_width) / pow2(
        level_shift(index_bits, page_offset_bits, level) as nat,
    )) % pow2(index_bits as nat)
}

/// The address with every bit outside the index field of `level` cleared: the
/// index, moved back to the position of its field.
pub open spec fn level_relevant_bits(
    index_bits: u64,
    page_offset_bits: u64,
    address: u64,
    level: u64,
    addr_width: AddrWidth,
) -> nat {
    level_index(index_bits, page_offset_bits, address, level, addr_width) * pow2(
        level_shift(index_bits, page_offset_bits, level) as nat,
    )
}

/// The parameters that a level lookup accepts: at least one index bit and at
/// most 64, at least one page-offset bit, a level of at least 1, and a shift
/// that fits in a `u64`.
pub open spec fn is_valid_level_request(index_bits: u64, page_offset_bits: u64, level: u64) -> bool {
    &&& 0 < index_bits <= MAX_MASK_BITS
    &&& 0 < page_offset_bits
    &&& 0 < level
    &&& level_shift(index_bits, page_offset_bits, level) <= u64::MAX
}

/// The lookup info that [`calculate_page_table_index`] returns.
pub open spec fn lookup_info(
    index_bits: u64,
    page_offset_bits: u64,
    address: u64,
    level: u64,
    addr_width: AddrWidth,
) -> PageTableLookupMetaInfo {
    PageTableLookupMetaInfo {
        v_addr: VirtualAddress(address),
        level,
        index: level_index(index_bits, page_offset_bits, address, level, addr_width) as u64,
        shift: level_shift(index_bits, page_offset_bits, level) as u64,
        relevant_part_of_addr: level_relevant_bits(
            index_bits,
            page_offset_bits,
            address,
            level,
            addr_width,
        ) as u64,
    }
}

/// The index of a level fits in `index_bits` bits, and the relevant bits of
/// the level are that index shifted left by the level's shift: they are zero
/// below the shift and from `shift + index_bits` upwards.
pub proof fn lemma_level_field(
    index_bits: u64,
    page_offset_bits: u64,
    address: u64,
    level: u64,
    addr_width: AddrWidth,
)
    requires
        is_valid_level_request(index_bits, page_offset_bits, level),
    ensures
        ({
            let index = level_index(index_bits, page_offset_bits, address, level, addr_width);
            let relevant = level_relevant_bits(
                index_bits,
                page_offset_bits,
                address,
                level,
                addr_width,
            );
            let shift = level_shift(index_bits, page_offset_bits, level) as nat;
            &&& index < pow2(index_bits as nat)
            &&& relevant == index * pow2(shift)
            &&& relevant % pow2(shift) == 0
            &&& relevant < pow2(shift + index_bits as nat)
        }),
{
    let index = level_index(index_bits, page_offset_bits, address, level, addr_width);
    let shift = level_shift(index_bits, page_offset_bits, level) as nat;
    let field = pow2(index_bits as nat);
    let step = pow2(shift);
    lemma_pow2_pos(index_bits as nat);
    lemma_pow2_pos(shift);
    lemma_mod_pos_bound(
        (effective_address(address, addr_width) / step) as int,
        field as int,
    );
    lemma_mod_multiples_basic(index as int, step as int);
    lemma_mul_strict_inequality(index as int, field as int, step as int);
    lemma_pow2_adds(shift, index_bits as nat);
    lemma_mul_is_commutative(field as int, step as int);
}

/// With 32-bit addresses, two addresses that agree in their low 32 bits have
/// the same index and relevant bits on every level (the shift does not depend
/// on the address): the upper bits are masked away before any computation.
pub proof fn lemma_width_clamp(
    index_bits: u64,
    page_offset_bits: u64,
    address: u64,
    other: u64,
    level: u64,
)
    requires
        address % 0x1_0000_0000 == other % 0x1_0000_0000,
    ensures
        level_index(index_bits, page_offset_bits, address, level, AddrWidth::Bits32)
            == level_index(index_bits, page_offset_bits, other, level, AddrWidth::Bits32),
        level_relevant_bits(index_bits, page_offset_bits, address, level, AddrWidth::Bits32)
            == level_relevant_bits(index_bits, page_offset_bits, other, level, AddrWidth::Bits32),
{
}

/// The relevant bits of the levels 1 to `levels`, added up.
pub open spec fn relevant_bits_of_levels(
    index_bits: u64,
    page_offset_bits: u64,
    address: u64,
    levels: u64,
    addr_width: AddrWidth,
) -> nat
    decreases levels,
{
    if levels == 0 {
        0
    } else {
        relevant_bits_of_levels(index_bits, page_offset_bits, address, (levels - 1) as u64, addr_width)
            + level_relevant_bits(index_bits, page_offset_bits, address, levels, addr_width)
    }
}

/// The page offset and the relevant bits of the levels 1 to `levels` rebuild
/// the address up to the end of the index field of the topmost of these
/// levels: the fields of the levels lie side by side above the page offset.
pub proof fn lemma_levels_rebuild_address(
    index_bits: u64,
    page_offset_bits: u64,
    address: u64,
    levels: u64,
    addr_width: AddrWidth,
)
    ensures
        effective_address(address, addr_width) % pow2(page_offset_bits as nat)
            + relevant_bits_of_levels(index_bits, page_offset_bits, address, levels, addr_width)
            == effective_address(address, addr_width) % pow2(
            (page_offset_bits + index_bits * levels) as nat,
        ),
    decreases levels,
{
    if levels == 0 {
        assert((page_offset_bits + index_bits * levels) as nat == page_offset_bits as nat);
        assert(relevant_bits_of_levels(index_bits, page_offset_bits, address, levels, addr_width)
            == 0);
        lemma_pow2_pos(page_offset_bits as nat);
    } else {
        let below = (levels - 1) as u64;
        lemma_levels_rebuild_address(index_bits, page_offset_bits, address, below, addr_width);
        let shift = level_shift(index_bits, page_offset_bits, levels);
        assert(shift == page_offset_bits + index_bits * below) by (nonlinear_arith)
            requires
                shift == index_bits * (levels - 1) + page_offset_bits,
                below == levels - 1,
        ;
        assert(shift + index_bits == page_offset_bits + index_bits * levels) by (nonlinear_arith)
            requires
                shift == page_offset_bits + index_bits * below,
                below == levels - 1,
        ;
        let eff = effective_address(address, addr_width);
        let step = pow2(shift as nat);
        let field = pow2(index_bits as nat);
        let digit = (eff / step) % field;
        lemma_pow2_pos(page_offset_bits as nat);
        lemma_pow2_pos(shift as nat);
        lemma_pow2_pos(index_bits as nat);
        lemma_pow2_adds(shift as nat, index_bits as nat);
        // Cutting `eff` at the end of the field of this level leaves the cut
        // at the start of the field plus the field moved into place.
        lemma_mod_breakdown(eff as int, step as int, field as int);
        assert(digit * step == step * digit) by (nonlinear_arith);
        assert(pow2((page_offset_bits + index_bits * below) as nat) == step);
        assert(pow2((page_offset_bits + index_bits * levels) as nat) == step * field);
    }
}

/// Calculates, for one level, the index into the page table, the part of the
/// address relevant for the level and the shift of the level, in this order.
///
/// - `index_bits`: number of bits that index into each page table (e.g. 10 on
///   x86, 9 on x86 with PAE or on x86_64)
/// - `page_offset_bits`: number of bits that index into the page (e.g. 12 on
///   x86 and x86_64, i.e., 4096 bytes per page)
/// - `address`: the virtual address
/// - `level`: level of the page table; level 0 would be the page itself
/// - `addr_width`: width of the address; of a 32-bit address only the low 32
///   bits are read
///
/// A field that starts at bit 64 or above holds no bit of the address: its
/// index and relevant bits are zero.
///
/// A level of 0, zero index bits or zero page-offset bits are not accepted:
/// the precondition leaves them out, so a call with any of them is refused
/// when the caller is verified, and no result is ever computed for them.
pub fn compute_level(
    index_bits: u64,
    page_offset_bits: u64,
    address: u64,
    level: u64,
    addr_width: AddrWidth,
) -> (r: (u64, u64, u64))
    requires
        is_valid_level_request(index_bits, page_offset_bits, level),
    ensures
        r.0 == level_index(index_bits, page_offset_bits, address, level, addr_width),
        r.1 == level_relevant_bits(index_bits, page_offset_bits, address, level, addr_width),
        r.2 == level_shift(index_bits, page_offset_bits, level),
        r.0 < pow2(index_bits as nat),
        r.1 == r.0 * pow2(r.2 as nat),
        r.1 as nat % pow2(r.2 as nat) == 0,
        r.1 < pow2((r.2 + index_bits) as nat),
{
    proof {
        lemma_level_field(index_bits, page_offset_bits, address, level, addr_width);
        lemma2_to64();
        lemma2_to64_rest();
    }
    let addr: u64 = match addr_width {
        AddrWidth::Bits32 => {
            let low = address & 0xffff_ffff;
            assert(low == address % 0x1_0000_0000) by (bit_vector)
                requires
                    low == address & 0xffff_ffff,
            ;
            low
        },
        AddrWidth::Bits64 => address,
    };
    assert(addr == effective_address(address, addr_width));

    // Number of bits to shift the address so that the index bits stand on the
    // right.
    let shift: u64 = index_bits * (level - 1) + page_offset_bits;
    let bitmask = create_mask(index_bits);

    if shift >= 64 {
        proof {
            if shift > 64 {
                lemma_pow2_strictly_increases(64, shift as nat);
            }
            assert(addr < pow2(shift as nat));
            lemma_basic_div(addr as int, pow2(shift as nat) as int);
            assert(addr as nat / pow2(shift as nat) == 0);
            assert(0nat % pow2(index_bits as nat) == 0);
            assert(0 * pow2(shift as nat) == 0);
        }
        return (0, 0, shift);
    }
    let shifted_addr = addr >> shift;
    let index = shifted_addr & bitmask;
    let relevant_part_of_addr = addr & (bitmask << shift);
    proof {
        lemma_u64_shr_is_div(addr, shift);
        assert(shifted_addr == addr as nat / pow2(shift as nat));
        if index_bits < 64 {
            lemma_u64_pow2_no_overflow(index_bits as nat);
            lemma_u64_low_bits_mask_is_mod(shifted_addr, index_bits as nat);
            assert(bitmask == low_bits_mask(index_bits as nat) as u64);
        } else {
            assert(shifted_addr & 0xffff_ffff_ffff_ffff == shifted_addr) by (bit_vector);
            lemma_small_mod(shifted_addr as nat, pow2(64));
        }
        assert(index == shifted_addr as nat % pow2(index_bits as nat));
        assert(index <= (0xffff_ffff_ffff_ffffu64 >> shift)) by (bit_vector)
            requires
                index == (addr >> shift) & bitmask,
                shift < 64,
        ;
        lemma_u64_mul_pow2_le_max_iff_max_shr(index, shift, 0xffff_ffff_ffff_ffffu64);
        lemma_u64_shl_is_mul(index, shift);
        assert(relevant_part_of_addr == index << shift) by (bit_vector)
            requires
                relevant_part_of_addr == addr & (bitmask << shift),
                index == (addr >> shift) & bitmask,
                shift < 64,
        ;
    }
    (index, relevant_part_of_addr, shift)
}

/// Calculates the index into the page table for the given level and the
/// given paging implementation characteristics, together with the shift and
/// the relevant part of the address (see [`compute_level`]). As there, a level
/// of 0, zero index bits or zero page-offset bits are left out by the
/// precondition.
pub fn calculate_page_table_index(
    index_bits: u64,
    page_offset_bits: u64,
    v_addr: u64,
    level: u64,
    addr_width: AddrWidth,
) -> (info: PageTableLookupMetaInfo)
    requires
        is_valid_level_request(index_bits, page_offset_bits, level),
    ensures
        info == lookup_info(index_bits, page_offset_bits, v_addr, level, addr_width),
        info.index < pow2(index_bits as nat),
        info.relevant_part_of_addr == info.index * pow2(info.shift as nat),
        info.relevant_part_of_addr as nat % pow2(info.shift as nat) == 0,
        info.relevant_part_of_addr < pow2((info.shift + index_bits) as nat),
{
    let (index, relevant_part_of_addr, shift) = compute_level(
        index_bits,
        page_offset_bits,
        v_addr,
        level,
        addr_width,
    );
    PageTableLookupMetaInfo {
        v_addr: VirtualAddress(v_addr),
        level,
        index,
        shift,
        relevant_part_of_addr,
    }
}

} // verus!
