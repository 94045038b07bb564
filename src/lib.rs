//! Decomposes a virtual address into the page-table indices that a paging
//! implementation uses on each level of its page-table hierarchy.
//!
//! The arithmetic core ([`page_table_index`]) computes, for one level, the index
//! into that level's table, the shift that brings the index field to the right
//! and the part of the address that belongs to the field. The catalog
//! ([`paging_info`]) holds the constants of the supported x86 paging modes and
//! runs the calculation across all of their levels.

pub mod addr_width;
pub mod bitmask;
pub mod cli;
pub mod page_table_index;
pub mod paging_info;
