use paging_calculator::addr_width::AddrWidth;
use paging_calculator::cli::{VirtualAddress, VirtualAddressError};
use std::str::FromStr;

#[test]
fn test_virtual_addr_from_str() {
    assert_eq!(VirtualAddress::from_str("0x123"), Ok(0x123.into()));
    assert_eq!(
        VirtualAddress::from_str("0xdead_beef"),
        Ok(0xdead_beef.into())
    );
    assert_eq!(
        VirtualAddress::from_str("    0xdEAd_bEEF    "),
        Ok(0xdead_beef.into())
    );
}

#[test]
fn test_virtual_addr_64_to_32_bit() {
    let v_addr = VirtualAddress::from_str("0xdead_beef_1337_1337");
    assert_eq!(v_addr, Ok(0xdead_beef_1337_1337.into()));
    let v_addr = v_addr.unwrap();
    assert_eq!(u32::from(v_addr), 0x1337_1337);
}

#[test]
fn address_converts_to_and_from_u64() {
    let v_addr = VirtualAddress::from(0xdead_beef_1337_1337);
    assert_eq!(u64::from(v_addr), 0xdead_beef_1337_1337);
    assert_eq!(u32::from(VirtualAddress::from(0x1_0000_0001)), 1);
}

#[test]
fn address_width_in_bits() {
    assert_eq!(u64::from(AddrWidth::Bits32), 32);
    assert_eq!(u64::from(AddrWidth::Bits64), 64);
}

#[test]
fn address_without_prefix_is_rejected() {
    assert_eq!(VirtualAddress::parse("123"), Err(VirtualAddressError::MissingPrefix));
    assert_eq!(VirtualAddress::parse(""), Err(VirtualAddressError::MissingPrefix));
    assert_eq!(VirtualAddress::parse("x12"), Err(VirtualAddressError::MissingPrefix));
}

#[test]
fn address_that_is_no_u64_is_rejected() {
    assert_eq!(VirtualAddress::parse("0x"), Err(VirtualAddressError::ParseIntError));
    assert_eq!(VirtualAddress::parse("0x+"), Err(VirtualAddressError::ParseIntError));
    assert_eq!(VirtualAddress::parse("0xg1"), Err(VirtualAddressError::ParseIntError));
    assert_eq!(VirtualAddress::parse("0x-1"), Err(VirtualAddressError::ParseIntError));
    assert_eq!(
        VirtualAddress::parse("0x1_0000_0000_0000_0000"),
        Err(VirtualAddressError::ParseIntError)
    );
}

#[test]
fn address_edge_values_are_read() {
    assert_eq!(
        VirtualAddress::parse("0xffff_ffff_ffff_ffff"),
        Ok(VirtualAddress::from(u64::MAX))
    );
    assert_eq!(VirtualAddress::parse("0x0"), Ok(VirtualAddress::from(0)));
    assert_eq!(VirtualAddress::parse("0x+ff"), Ok(VirtualAddress::from(0xff)));
    assert_eq!(VirtualAddress::parse("_0_x_1_"), Ok(VirtualAddress::from(1)));
}

#[test]
fn address_text_is_trimmed_and_lowercased_first() {
    assert_eq!(VirtualAddress::parse("\t0x1f\n"), Ok(VirtualAddress::from(0x1f)));
    assert_eq!(VirtualAddress::parse("0XAB"), Ok(VirtualAddress::from(0xab)));
    assert_eq!(
        VirtualAddress::parse_normalized("0XAB"),
        Err(VirtualAddressError::MissingPrefix)
    );
    assert_eq!(
        VirtualAddress::parse_normalized(" 0x1"),
        Err(VirtualAddressError::MissingPrefix)
    );
    assert_eq!(VirtualAddress::parse_normalized("0xAb"), Ok(VirtualAddress::from(0xab)));
}
