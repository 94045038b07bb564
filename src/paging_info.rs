//! Descriptors of specific paging implementations, and the lookup of a
//! virtual address across all of their levels.

pub mod impls;

use crate::addr_width::AddrWidth;
use crate::cli::{Architecture, VirtualAddress};
use crate::page_table_index::{
    calculate_page_table_index, is_valid_level_request, level_shift, lookup_info,
    PageTableLookupMetaInfo,
};
use vstd::prelude::*;

verus! {

/// The constants that describe one paging implementation.
#[derive(Debug)]
pub struct PagingImplInfo {
    /// Short name of the paging implementation.
    pub name: &'static str,
    /// Descriptive text of the paging implementation.
    pub description: &'static str,
    /// Address width.
    pub addr_width: AddrWidth,
    /// Number of bits used to index into the page. 2 to the power of this
    /// value equals the page size.
    pub page_offset_bits: u64,
    /// Number of bits used to index into a page table. 2 to the power of this
    /// value equals the number of entries per page table. The number is the
    /// same on every level, as it is in every supported paging implementation.
    pub page_table_index_bits: u64,
    /// Size of a page table entry in bytes.
    pub page_table_entry_size: u64,
    /// Number of page-table levels.
    pub levels: u64,
}

/// The descriptor that belongs to an architecture and its options.
///
/// | Variant          | Levels | Addr width | Index bits | Offset bits | Entry size |
/// |------------------|--------|------------|------------|-------------|------------|
/// | x86              | 2      | 32         | 10         | 12          | 4          |
/// | x86 + PAE        | 3      | 32         | 9          | 12          | 8          |
/// | x86_64           | 4      | 64         | 9          | 12          | 8          |
/// | x86_64 (5-level) | 5      | 64         | 9          | 12          | 8          |
pub open spec fn descriptor_of(arch: Architecture) -> PagingImplInfo {
    match arch {
        Architecture::X86 { pae: false } => PagingImplInfo {
            name: impls::X86_NAME,
            description: impls::X86_DESCRIPTION,
            addr_width: AddrWidth::Bits32,
            page_offset_bits: 12,
            page_table_index_bits: 10,
            page_table_entry_size: 4,
            levels: 2,
        },
        Architecture::X86 { pae: true } => PagingImplInfo {
            name: impls::X86_PAE_NAME,
            description: impls::X86_PAE_DESCRIPTION,
            addr_width: AddrWidth::Bits32,
            page_offset_bits: 12,
            page_table_index_bits: 9,
            page_table_entry_size: 8,
            levels: 3,
        },
        Architecture::X86_64 { five_level: false } => PagingImplInfo {
            name: impls::X86_64_NAME,
            description: impls::X86_64_DESCRIPTION,
            addr_width: AddrWidth::Bits64,
            page_offset_bits: 12,
            page_table_index_bits: 9,
            page_table_entry_size: 8,
            levels: 4,
        },
        Architecture::X86_64 { five_level: true } => PagingImplInfo {
            name: impls::X86_64_5LEVEL_NAME,
            description: impls::X86_64_5LEVEL_DESCRIPTION,
            addr_width: AddrWidth::Bits64,
            page_offset_bits: 12,
            page_table_index_bits: 9,
            page_table_entry_size: 8,
            levels: 5,
        },
    }
}

/// When `index_bits * (top - 1) + page_offset_bits` fits, so does the shift
/// of every level below `top`.
proof fn lemma_lower_level_valid(index_bits: u64, page_offset_bits: u64, top: u64, level: u64)
    requires
        is_valid_level_request(index_bits, page_offset_bits, top),
        0 < level <= top,
    ensures
        is_valid_level_request(index_bits, page_offset_bits, level),
{
    assert(index_bits * (level - 1) <= index_bits * (top - 1)) by (nonlinear_arith)
        requires
            0 < level <= top,
            0 < index_bits,
    ;
}

impl PagingImplInfo {
    /// The descriptor describes at least one level, and the index field of
    /// its topmost level can be computed: at most 64 index bits, at least one
    /// page-offset bit, and a shift that fits in a `u64`.
    pub open spec fn wf(&self) -> bool {
        is_valid_level_request(self.page_table_index_bits, self.page_offset_bits, self.levels)
    }

    /// Returns the descriptor of the given architecture, one of the constants
    /// of [`impls`].
    /// Each is the only descriptor of its architecture and options.
    pub fn from_arch(arch: Architecture) -> (info: Self)
        ensures
            info == descriptor_of(arch),
            info.wf(),
    {
        match arch {
            Architecture::X86 { pae: false } => impls::x86(),
            Architecture::X86 { pae: true } => impls::x86_pae(),
            Architecture::X86_64 { five_level: false } => impls::x86_64(),
            Architecture::X86_64 { five_level: true } => impls::x86_64_5level(),
        }
    }

    /// Calculates the [`PageTableLookupMetaInfo`] of all levels for a virtual
    /// address. There is one result per page-table level: the first element
    /// belongs to level 1 and the last one to level n.
    pub fn calc_page_table_lookup_meta_info(&self, v_addr: VirtualAddress) -> (infos: Vec<
        PageTableLookupMetaInfo,
    >)
        requires
            self.wf(),
        ensures
            infos@.len() == self.levels,
            forall|i: int|
                0 <= i < infos@.len() ==> #[trigger] infos@[i] == lookup_info(
                    self.page_table_index_bits,
                    self.page_offset_bits,
                    v_addr.value(),
                    (i + 1) as u64,
                    self.addr_width,
                ),
            forall|i: int| 0 <= i < infos@.len() ==> #[trigger] infos@[i].level == i + 1,
    {
        let mut level: u64 = 0;
        let mut level_info_vec: Vec<PageTableLookupMetaInfo> = Vec::new();
        while level < self.levels
            invariant
                self.wf(),
                level <= self.levels,
                level_info_vec@.len() == level,
                forall|i: int|
                    0 <= i < level ==> #[trigger] level_info_vec@[i] == lookup_info(
                        self.page_table_index_bits,
                        self.page_offset_bits,
                        v_addr.value(),
                        (i + 1) as u64,
                        self.addr_width,
                    ),
            decreases self.levels - level,
        {
            level = level + 1;
            proof {
                lemma_lower_level_valid(
                    self.page_table_index_bits,
                    self.page_offset_bits,
                    self.levels,
                    level,
                );
            }
            let info = calculate_page_table_index(
                self.page_table_index_bits,
                self.page_offset_bits,
                u64::from(v_addr),
                level,
                self.addr_width,
            );
            level_info_vec.push(info);
        }
        level_info_vec
    }

    /// Splits the rendering of a level's relevant bits, written over the full
    /// address width, into three runs: the zeroes left of the index field,
    /// the bits of the index field that lie inside the address, and the
    /// zeroes right of the field, in this order. A field that reaches past the
    /// address width is cut at it.
    pub fn relevant_bits_layout(&self, level: u64) -> (runs: (u64, u64, u64))
        requires
            self.wf(),
            0 < level,
            level_shift(self.page_table_index_bits, self.page_offset_bits, level)
                <= self.addr_width.bits(),
        ensures
            runs.2 == level_shift(self.page_table_index_bits, self.page_offset_bits, level),
            runs.1 == if runs.2 + self.page_table_index_bits > self.addr_width.bits() {
                self.addr_width.bits() - runs.2
            } else {
                self.page_table_index_bits as int
            },
            runs.0 + runs.1 + runs.2 == self.addr_width.bits(),
    {
        let addr_width = u64::from(self.addr_width);
        let zeroes_fill_right_count = self.page_offset_bits + (level - 1)
            * self.page_table_index_bits;
        assert(zeroes_fill_right_count == level_shift(
            self.page_table_index_bits,
            self.page_offset_bits,
            level,
        )) by (nonlinear_arith)
            requires
                zeroes_fill_right_count == self.page_offset_bits + (level - 1)
                    * self.page_table_index_bits,
        ;
        let page_index_highlight_bits_count = if zeroes_fill_right_count
            + self.page_table_index_bits > addr_width {
            addr_width - zeroes_fill_right_count
        } else {
            self.page_table_index_bits
        };
        let zeroes_fill_left_count = addr_width - zeroes_fill_right_count
            - page_index_highlight_bits_count;
        (zeroes_fill_left_count, page_index_highlight_bits_count, zeroes_fill_right_count)
    }

    /// Byte offset of the entry with the given index inside a page table.
    pub fn entry_offset(&self, index: u64) -> (offset: u64)
        requires
            index * self.page_table_entry_size <= u64::MAX,
        ensures
            offset == index * self.page_table_entry_size,
    {
        index * self.page_table_entry_size
    }
}

/// Every shipped descriptor is well formed, and the index field of its
/// topmost level starts inside its address width, so that every level reads
/// bits of the address.
pub proof fn lemma_catalog_levels_within_width(arch: Architecture)
    ensures
        descriptor_of(arch).wf(),
        level_shift(
            descriptor_of(arch).page_table_index_bits,
            descriptor_of(arch).page_offset_bits,
            descriptor_of(arch).levels,
        ) < descriptor_of(arch).addr_width.bits(),
{
}

} // verus!
