use paging_calculator::addr_width::AddrWidth;
use paging_calculator::cli::VirtualAddress;
use paging_calculator::page_table_index::{
    calculate_page_table_index, compute_level, PageTableLookupMetaInfo,
};

#[test]
fn main_test_calculate_page_table_index_x86() {
    // a 32-bit address written so that it is separated by the corresponding
    // levels of page table on x86.
    #[allow(clippy::unusual_byte_groupings)]
    let addr = 0b1111111111_1010101010_001111000011;

    let (l2_index, l2_bits, _) = compute_level(10, 12, addr, 2, AddrWidth::Bits64);
    assert_eq!(
        l2_index, 0b1111111111,
        "Should be 0b1111111111 but is {l2_index:#b}",
    );
    let expected_bits: u64 = 0b1111111111 << (10 + 12);
    assert_eq!(
        l2_bits, expected_bits,
        "Should be {l2_bits:#b} but is {expected_bits:#b}"
    );

    let (l1_index, l1_bits, _) = compute_level(10, 12, addr, 1, AddrWidth::Bits64);
    assert_eq!(
        l1_index, 0b1010101010,
        "Should be 0b1010101010 but is {l1_index:#b}",
    );
    let expected_bits: u64 = 0b1010101010 << 12;
    assert_eq!(
        l1_bits, expected_bits,
        "Should be {l1_bits:#b} but is {expected_bits:#b}"
    );
}

#[test]
#[allow(clippy::identity_op)]
fn main_test_calculate_page_table_index_64() {
    // a 64-bit address written so that it is separated by the corresponding
    // levels of page table on x86_64.
    #[allow(clippy::unusual_byte_groupings)]
    let addr = 0b000100000_000011111_111111111_010101010_001111000011;

    let (l4_index, l4_bits, _) = compute_level(9, 12, addr, 4, AddrWidth::Bits64);
    assert_eq!(
        l4_index, 0b000100000,
        "Should be 0b000100000 but is {l4_index:#b}"
    );
    let expected_bits: u64 = 0b000100000 << (3 * 9 + 12);
    assert_eq!(
        l4_bits, expected_bits,
        "Should be {l4_bits:#b} but is {expected_bits:#b}"
    );

    let (l3_index, l3_bits, _) = compute_level(9, 12, addr, 3, AddrWidth::Bits64);
    assert_eq!(
        l3_index, 0b000011111,
        "Should be 0b000011111 but is {l3_index:#b}"
    );
    let expected_bits: u64 = 0b000011111 << (2 * 9 + 12);
    assert_eq!(
        l3_bits, expected_bits,
        "Should be {l3_bits:#b} but is {expected_bits:#b}"
    );

    let (l2_index, l2_bits, _) = compute_level(9, 12, addr, 2, AddrWidth::Bits64);
    assert_eq!(
        l2_index, 0b111111111,
        "Should be 0b111111111 but is {l2_index:#b}"
    );
    let expected_bits: u64 = 0b111111111 << (1 * 9 + 12);
    assert_eq!(
        l2_bits, expected_bits,
        "Should be {l2_bits:#b} but is {expected_bits:#b}"
    );

    let (l1_index, l1_bits, _) = compute_level(9, 12, addr, 1, AddrWidth::Bits64);
    assert_eq!(
        l1_index, 0b010101010,
        "Should be 0b010101010 but is {l1_index:#b}"
    );
    let expected_bits: u64 = 0b010101010 << 12;
    assert_eq!(
        l1_bits, expected_bits,
        "Should be {l1_bits:#b} but is {expected_bits:#b}"
    );
}

#[test]
fn page_table_index_test_calculate_page_table_index_x86() {
    // a 32-bit address written so that it is separated by the corresponding
    // levels of page table on x86.
    #[allow(clippy::unusual_byte_groupings)]
    let addr = 0b1111111111_1010101010_001111000011;

    {
        let PageTableLookupMetaInfo {
            index: l2_index,
            relevant_part_of_addr: l2_bits,
            ..
        } = calculate_page_table_index(10, 12, addr, 2, AddrWidth::Bits32);
        assert_eq!(
            l2_index, 0b1111111111,
            "Should be 0b1111111111 but is {l2_index:#b}",
        );
        let expected_bits: u64 = 0b1111111111 << (10 + 12);
        assert_eq!(
            l2_bits, expected_bits,
            "Should be {l2_bits:#b} but is {expected_bits:#b}"
        );
    }

    {
        let PageTableLookupMetaInfo {
            index: l1_index,
            relevant_part_of_addr: l1_bits,
            ..
        } = calculate_page_table_index(10, 12, addr, 1, AddrWidth::Bits32);
        assert_eq!(
            l1_index, 0b1010101010,
            "Should be 0b1010101010 but is {l1_index:#b}",
        );
        let expected_bits: u64 = 0b1010101010 << 12;
        assert_eq!(
            l1_bits, expected_bits,
            "Should be {l1_bits:#b} but is {expected_bits:#b}"
        );
    }
}

#[test]
fn test_calculate_page_table_index_x86_pae() {
    // a 32-bit address written so that it is separated by the corresponding
    // levels of page table on x86 with PAE.
    #[allow(clippy::unusual_byte_groupings)]
    let addr = 0b10_111111111_010101010_001111000011;

    {
        let PageTableLookupMetaInfo {
            index: l3_index,
            relevant_part_of_addr: l3_bits,
            ..
        } = calculate_page_table_index(9, 12, addr, 3, AddrWidth::Bits32);
        assert_eq!(l3_index, 0b10, "Should be 0b10 but is {l3_index:#b}",);
        let expected_bits: u64 = 0b10 << (9 * 2 + 12);
        assert_eq!(
            l3_bits, expected_bits,
            "Should be {l3_bits:#b} but is {expected_bits:#b}"
        );
    }

    {
        let PageTableLookupMetaInfo {
            index: l2_index,
            relevant_part_of_addr: l2_bits,
            ..
        } = calculate_page_table_index(9, 12, addr, 2, AddrWidth::Bits32);
        assert_eq!(
            l2_index, 0b111111111,
            "Should be 0b111111111 but is {l2_index:#b}",
        );
        let expected_bits: u64 = 0b111111111 << (9 + 12);
        assert_eq!(
            l2_bits, expected_bits,
            "Should be {l2_bits:#b} but is {expected_bits:#b}"
        );
    }

    {
        let PageTableLookupMetaInfo {
            index: l1_index,
            relevant_part_of_addr: l1_bits,
            ..
        } = calculate_page_table_index(9, 12, addr, 1, AddrWidth::Bits32);
        assert_eq!(
            l1_index, 0b010101010,
            "Should be 0b010101010 but is {l1_index:#b}",
        );
        let expected_bits: u64 = 0b010101010 << 12;
        assert_eq!(
            l1_bits, expected_bits,
            "Should be {l1_bits:#b} but is {expected_bits:#b}"
        );
    }
}

#[test]
#[allow(clippy::identity_op)]
fn page_table_index_test_calculate_page_table_index_64() {
    // a 64-bit address written so that it is separated by the corresponding
    // levels of page table on x86_64.
    #[allow(clippy::unusual_byte_groupings)]
    let addr = 0b000100000_000011111_111111111_010101010_001111000011;

    {
        let PageTableLookupMetaInfo {
            index: l4_index,
            relevant_part_of_addr: l4_bits,
            ..
        } = calculate_page_table_index(9, 12, addr, 4, AddrWidth::Bits64);
        assert_eq!(
            l4_index, 0b000100000,
            "Should be 0b000100000 but is {l4_index:#b}"
        );
        let expected_bits: u64 = 0b000100000 << (3 * 9 + 12);
        assert_eq!(
            l4_bits, expected_bits,
            "Should be {l4_bits:#b} but is {expected_bits:#b}"
        );
    }

    {
        let PageTableLookupMetaInfo {
            index: l3_index,
            relevant_part_of_addr: l3_bits,
            ..
        } = calculate_page_table_index(9, 12, addr, 3, AddrWidth::Bits64);
        assert_eq!(
            l3_index, 0b000011111,
            "Should be 0b000011111 but is {l3_index:#b}"
        );
        let expected_bits: u64 = 0b000011111 << (2 * 9 + 12);
        assert_eq!(
            l3_bits, expected_bits,
            "Should be {l3_bits:#b} but is {expected_bits:#b}"
        );
    }

    {
        let PageTableLookupMetaInfo {
            index: l2_index,
            relevant_part_of_addr: l2_bits,
            ..
        } = calculate_page_table_index(9, 12, addr, 2, AddrWidth::Bits64);
        assert_eq!(
            l2_index, 0b111111111,
            "Should be 0b111111111 but is {l2_index:#b}"
        );
        let expected_bits: u64 = 0b111111111 << (9 + 12);
        assert_eq!(
            l2_bits, expected_bits,
            "Should be {l2_bits:#b} but is {expected_bits:#b}"
        );
    }

    {
        let PageTableLookupMetaInfo {
            index: l1_index,
            relevant_part_of_addr: l1_bits,
            ..
        } = calculate_page_table_index(9, 12, addr, 1, AddrWidth::Bits64);
        assert_eq!(
            l1_index, 0b010101010,
            "Should be 0b010101010 but is {l1_index:#b}"
        );
        let expected_bits: u64 = 0b010101010 << 12;
        assert_eq!(
            l1_bits, expected_bits,
            "Should be {l1_bits:#b} but is {expected_bits:#b}"
        );
    }
}

#[test]
fn lookup_info_keeps_address_level_and_shift() {
    let info = calculate_page_table_index(9, 12, 0xdead_beef_1234_5678, 3, AddrWidth::Bits64);
    assert_eq!(info.v_addr, VirtualAddress::from(0xdead_beef_1234_5678));
    assert_eq!(info.level, 3);
    assert_eq!(info.shift, 9 * 2 + 12);
}

#[test]
fn shift_follows_the_level_formula() {
    for level in 1..=5u64 {
        let (_, _, shift) = compute_level(9, 12, 0, level, AddrWidth::Bits64);
        assert_eq!(shift, 9 * (level - 1) + 12);
    }
    let (_, _, shift) = compute_level(10, 12, 0, 2, AddrWidth::Bits32);
    assert_eq!(shift, 22);
}

#[test]
fn index_stays_below_the_table_size() {
    let (index, relevant, shift) = compute_level(9, 12, u64::MAX, 4, AddrWidth::Bits64);
    assert_eq!(index, 511);
    assert_eq!(relevant, index << shift);
    assert_eq!(relevant, 0x1ff << 39);
}

#[test]
fn upper_half_is_ignored_for_32_bit_addresses() {
    let low = 0b10_111111111_010101010_001111000011u64;
    for level in 1..=3u64 {
        let plain = compute_level(9, 12, low, level, AddrWidth::Bits32);
        let noisy = compute_level(9, 12, 0xdead_beef_0000_0000 | low, level, AddrWidth::Bits32);
        assert_eq!(plain, noisy);
    }
    let wide = compute_level(9, 12, 0xdead_beef_0000_0000 | low, 3, AddrWidth::Bits64);
    assert_ne!(wide, compute_level(9, 12, low, 3, AddrWidth::Bits32));
}

#[test]
fn full_width_index_field_reads_every_bit_above_the_offset() {
    let (index, relevant, shift) = compute_level(64, 1, 0xffff_0000_0000_00ff, 1, AddrWidth::Bits64);
    assert_eq!(shift, 1);
    assert_eq!(index, 0x7fff_8000_0000_007f);
    assert_eq!(relevant, 0xffff_0000_0000_00fe);
}

#[test]
fn field_crossing_bit_64_is_cut_at_the_top() {
    let (index, relevant, shift) = compute_level(9, 12, u64::MAX, 6, AddrWidth::Bits64);
    assert_eq!(shift, 57);
    assert_eq!(index, 0x7f);
    assert_eq!(relevant, 0x7f << 57);
}

#[test]
fn field_above_bit_64_is_empty() {
    assert_eq!(compute_level(9, 12, u64::MAX, 7, AddrWidth::Bits64), (0, 0, 66));
    assert_eq!(compute_level(1, 64, u64::MAX, 1, AddrWidth::Bits64), (0, 0, 64));
}

#[test]
fn pae_top_level_reads_only_two_address_bits() {
    let (index, relevant, shift) = compute_level(9, 12, 0xffff_ffff, 3, AddrWidth::Bits32);
    assert_eq!(shift, 30);
    assert_eq!(index, 0b11);
    assert_eq!(relevant, 0b11 << 30);
}
