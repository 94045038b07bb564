//! Width of a virtual address.

use vstd::prelude::*;

verus! {

/// Width of the virtual addresses of a paging implementation. With
/// [`AddrWidth::Bits32`] only the low 32 bits of an address are relevant.
#[derive(Copy, Clone, Debug, PartialEq, Eq, Structural)]
pub enum AddrWidth {
    /// 32-bit addresses.
    Bits32,
    /// 64-bit addresses.
    Bits64,
}

impl AddrWidth {
    /// Number of bits of an address of this width.
    pub open spec fn bits(self) -> nat {
        match self {
            AddrWidth::Bits32 => 32,
            AddrWidth::Bits64 => 64,
        }
    }
}

impl From<AddrWidth> for u64 {
    fn from(value: AddrWidth) -> (bits: u64)
        ensures
            bits == value.bits(),
    {
        match value {
            AddrWidth::Bits32 => 32,
            AddrWidth::Bits64 => 64,
        }
    }
}

impl vstd::std_specs::convert::FromSpecImpl<AddrWidth> for u64 {
    open spec fn obeys_from_spec() -> bool {
        true
    }

    open spec fn from_spec(v: AddrWidth) -> u64 {
        v.bits() as u64
    }
}

} // verus!
