//! The descriptors of the supported paging implementations.

use super::{descriptor_of, PagingImplInfo};
use crate::addr_width::AddrWidth;
use crate::cli::Architecture;
use vstd::prelude::*;

verus! {

/// Short name of the paging implementation that [`x86`] describes.
pub const X86_NAME: &'static str = "x86 32-bit paging";

/// Description of the paging implementation named [`X86_NAME`].
pub const X86_DESCRIPTION: &'static str = "x86 paging uses a 2-level page table. The page is indexed by 12 bits,\n\
        which results in a page-size of 4096 bytes. Each page table is indexed by 10\n\
        bits and has 2^10 == 1024 entries. Each page-table entry is 32-bit in size.\n\
        Hence, a page table occupies the size of a page. Huge pages have a size of\n\
        2^22 == 4 MiB.";

/// x86 32-bit paging: 2 levels of 10 index bits above a 12-bit page offset.
pub fn x86() -> (info: PagingImplInfo)
    ensures
        info == descriptor_of(Architecture::X86 { pae: false }),
{
    PagingImplInfo {
        name: X86_NAME,
        description: X86_DESCRIPTION,
        addr_width: AddrWidth::Bits32,
        page_offset_bits: 12,
        page_table_index_bits: 10,
        page_table_entry_size: 4,
        levels: 2,
    }
}

/// Short name of the paging implementation that [`x86_pae`] describes.
pub const X86_PAE_NAME: &'static str = "x86 32-bit paging with PAE";

/// Description of the paging implementation named [`X86_PAE_NAME`].
pub const X86_PAE_DESCRIPTION: &'static str = "x86 with the Physical Address Extension (PAE) paging uses a 3-level page table,\n\
        that enables to access more than 32-bit of physical address space. The page\n\
        is indexed by 12 bits, which results in a page-size of 4096 bytes. Tables\n\
        at level 1 and 2 are indexed by 9 bits and have 2^9 == 512 entries. The third-\n\
        level page table is indexed by 2 bits and has 2^2 == 4 entries. Each page-table\n\
        entry is 64-bit in size. Hence, a page table at levels 1 and 2 occupies the size\n\
        of a page whereas the level 3 page table occupies 32 byte. Huge pages have a size\n\
        of 2^21 == 2 MiB and are only valid on level 2.";

/// x86 32-bit paging with the Physical Address Extension: 3 levels of 9
/// index bits above a 12-bit page offset.
pub fn x86_pae() -> (info: PagingImplInfo)
    ensures
        info == descriptor_of(Architecture::X86 { pae: true }),
{
    PagingImplInfo {
        name: X86_PAE_NAME,
        description: X86_PAE_DESCRIPTION,
        addr_width: AddrWidth::Bits32,
        page_offset_bits: 12,
        page_table_index_bits: 9,
        page_table_entry_size: 8,
        levels: 3,
    }
}

/// Short name of the paging implementation that [`x86_64`] describes.
pub const X86_64_NAME: &'static str = "x86_64 paging";

/// Description of the paging implementation named [`X86_64_NAME`].
pub const X86_64_DESCRIPTION: &'static str = "x86_64 paging uses a 4-level page table. The page is indexed by 12 bits,\n\
        which results in a page-size of 4096 bytes. Each page table is indexed by 9\n\
        bits and has 2^9 == 512 entries. Each page-table entry is 64-bit in size. Hence,\n\
        a page table occupies the size of a page. Huge pages have a size of\n\
        2^21 == 2 MiB or 2^30 == 1 GiB. Huge pages are only valid on levels 2 or 3.";

/// x86_64 paging: 4 levels of 9 index bits above a 12-bit page offset.
pub fn x86_64() -> (info: PagingImplInfo)
    ensures
        info == descriptor_of(Architecture::X86_64 { five_level: false }),
{
    PagingImplInfo {
        name: X86_64_NAME,
        description: X86_64_DESCRIPTION,
        addr_width: AddrWidth::Bits64,
        page_offset_bits: 12,
        page_table_index_bits: 9,
        page_table_entry_size: 8,
        levels: 4,
    }
}

/// Short name of the paging implementation that [`x86_64_5level`] describes.
pub const X86_64_5LEVEL_NAME: &'static str = "x86_64 paging (5-level)";

/// Description of the paging implementation named [`X86_64_5LEVEL_NAME`].
pub const X86_64_5LEVEL_DESCRIPTION: &'static str = "x86_64 paging optionally uses a 5-level page table. The page is indexed\n\
        by 12 bits, which results in a page-size of 4096 bytes. Each page table is\n\
        indexed by 9 bits and has 2^9 == 512 entries. Each page-table entry is 64-bit in\n\
        size. Hence, a page table occupies the size of a page. Huge pages have a size of\n\
        2^21 == 2 MiB or 2^30 == 1 GiB. Huge pages are only valid on levels 2 or 3.";

/// x86_64 paging with the optional fifth level: 5 levels of 9 index bits
/// above a 12-bit page offset.
pub fn x86_64_5level() -> (info: PagingImplInfo)
    ensures
        info == descriptor_of(Architecture::X86_64 { five_level: true }),
{
    PagingImplInfo {
        name: X86_64_5LEVEL_NAME,
        description: X86_64_5LEVEL_DESCRIPTION,
        addr_width: AddrWidth::Bits64,
        page_offset_bits: 12,
        page_table_index_bits: 9,
        page_table_entry_size: 8,
        levels: 5,
    }
}

} // verus!
