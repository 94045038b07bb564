use paging_calculator::bitmask::num_to_bitmask;

#[test]
fn test_num_to_bitmask() {
    assert_eq!(num_to_bitmask(0), 0);
    assert_eq!(num_to_bitmask(1), 1);
    assert_eq!(num_to_bitmask(2), 0b11);
    assert_eq!(num_to_bitmask(4), 0xf);
    assert_eq!(num_to_bitmask(64), !0);
}

#[test]
fn num_to_bitmask_sets_exactly_the_low_bits() {
    assert_eq!(num_to_bitmask(9), 0x1ff);
    assert_eq!(num_to_bitmask(10), 0x3ff);
    assert_eq!(num_to_bitmask(32), 0xffff_ffff);
    assert_eq!(num_to_bitmask(63), u64::MAX >> 1);
}
