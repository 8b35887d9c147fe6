use stm32f4::helpers::{Bit, BitRange};

#[test]
fn bit_range_extracts_the_field() {
    let v: u32 = 0xABCD_1234;
    assert_eq!(v.bit_range(15, 8), 0x12);
    assert_eq!(v.bit_range(31, 28), 0xA);
    assert_eq!(v.bit_range(0, 0), 0);
    assert_eq!(v.bit_range(31, 0), 0xABCD_1234);
}

#[test]
fn set_bit_range_replaces_only_the_field() {
    let mut v: u32 = 0xFFFF_FFFF;
    v.set_bit_range(7, 4, 0x3);
    assert_eq!(v, 0xFFFF_FF3F);
    let mut w: u32 = 0;
    w.set_bit_range(31, 0, 0x1234_5678);
    assert_eq!(w, 0x1234_5678);
}

#[test]
fn set_bit_range_cuts_a_wide_value_to_the_field() {
    let mut v: u32 = 0;
    v.set_bit_range(3, 0, 0x1F);
    assert_eq!(v, 0xF);
    let mut w: u32 = 0;
    w.set_bit_range(29, 28, 0x7);
    assert_eq!(w, 0x3000_0000);
}

#[test]
fn bit_range_reads_back_what_was_written() {
    let mut v: u32 = 0x5555_5555;
    v.set_bit_range(20, 13, 0xC3);
    assert_eq!(v.bit_range(20, 13), 0xC3);
    assert_eq!(v.bit_range(12, 0), 0x5555_5555 & 0x1FFF);
    assert_eq!(v.bit_range(31, 21), 0x5555_5555 >> 21);
}

#[test]
fn bit_reads_single_bits() {
    let v: u32 = 0x8000_0001;
    assert!(v.bit(31));
    assert!(v.bit(0));
    assert!(!v.bit(1));
    assert!(!v.bit(30));
}

#[test]
fn set_bit_changes_one_bit() {
    let mut v: u32 = 0;
    v.set_bit(31, true);
    assert_eq!(v, 0x8000_0000);
    let mut w: u32 = 0xFFFF_FFFF;
    w.set_bit(0, false);
    assert_eq!(w, 0xFFFF_FFFE);
    w.set_bit(0, true);
    assert_eq!(w, 0xFFFF_FFFF);
}

#[test]
fn set_bit_is_a_one_bit_range() {
    let mut a: u32 = 0x0F0F_0F0F;
    let mut b: u32 = 0x0F0F_0F0F;
    a.set_bit(9, true);
    b.set_bit_range(9, 9, 1);
    assert_eq!(a, b);
    a.set_bit(2, false);
    b.set_bit_range(2, 2, 0);
    assert_eq!(a, b);
    assert_eq!(a.bit(9), a.bit_range(9, 9) == 1);
}
