use nes_core::flags::CPUFlags;
use nes_core::util::{page_of, BitOperations};

#[test]
fn bit_operations() {
    let mut result = 0u16;
    let a = 0b0101_1111;
    let b = 0b0000_1010;
    let mut c = 0b1100_0000;
    c.set_bits_all(2..=3, true);
    result.set_bits(0..=3, a.get_bits(4..=7));
    result.set_bits(4..=7, b.get_bits(0..=3));
    result.set_bits(8..=15, c.get_bits(0..=7));
    assert_eq!(result, 0b1100_1100_1010_0101);
}

#[test]
fn bit_operations_u8_single_bits() {
    let mut v = 0u8;
    v.set_bit(7, true);
    v.set_bit(0, true);
    assert_eq!(v, 0x81);
    assert!(v.get_bit(7));
    assert!(v.get_bit(0));
    assert!(!v.get_bit(3));
    v.set_bit(7, false);
    assert_eq!(v, 0x01);
}

#[test]
fn bit_operations_u8_ranges() {
    let v = 0xABu8;
    assert_eq!(v.get_bits(4..=7), 0x0A);
    assert_eq!(v.get_bits(0..=3), 0x0B);
    let mut w = 0xFFu8;
    w.set_bits(2..=5, 0);
    assert_eq!(w, 0b1100_0011);
    w.set_bits_all(2..=5, true);
    assert_eq!(w, 0xFF);
}

#[test]
fn page_extraction() {
    assert_eq!(page_of(0x0000), 0x00);
    assert_eq!(page_of(0x00FF), 0x00);
    assert_eq!(page_of(0x0100), 0x01);
    assert_eq!(page_of(0xC0FF), 0xC0);
    assert_eq!(page_of(0xC100), 0xC1);
    assert_eq!(page_of(0xFFFF), 0xFF);
}

#[test]
fn flags_pack_layout() {
    let f = CPUFlags::new();
    assert_eq!(f.to_byte(), 0x20);
    let mut f = CPUFlags::new();
    f.carry = true;
    assert_eq!(f.to_byte(), 0x21);
    f.zero = true;
    assert_eq!(f.to_byte(), 0x23);
    f.interrupt_disable = true;
    assert_eq!(f.to_byte(), 0x27);
    f.decimal_mode = true;
    assert_eq!(f.to_byte(), 0x2F);
    f.overflow = true;
    assert_eq!(f.to_byte(), 0x6F);
    f.negative = true;
    assert_eq!(f.to_byte(), 0xEF);
}

#[test]
fn flags_unpack_ignores_bits_4_and_5() {
    let f = CPUFlags::from_byte(0xFF);
    assert!(f.carry && f.zero && f.interrupt_disable && f.decimal_mode);
    assert!(f.overflow && f.negative);
    assert_eq!(f.to_byte(), 0xEF);
    let f = CPUFlags::from_byte(0x30);
    assert_eq!(f.to_byte(), 0x20);
}

#[test]
fn flags_pack_round_trip_every_byte() {
    for b in 0..=255u8 {
        let packed = CPUFlags::from_byte(b).to_byte();
        assert_eq!(packed, (b | 0x20) & !0x10);
    }
}

#[test]
fn flags_unpack_of_pack_keeps_flags() {
    for b in 0..=255u8 {
        let f = CPUFlags::from_byte(b);
        let back = CPUFlags::from_byte(f.to_byte());
        assert_eq!(f, back);
    }
}
