use lib::{FlagsRegister, Registers};

#[test]
fn flags_to_byte_places_each_flag() {
    let f = FlagsRegister { zero: true, subtract: false, half_carry: true, carry: false };
    assert_eq!(u8::from(f), 0b1010_0000);
    let all = FlagsRegister { zero: true, subtract: true, half_carry: true, carry: true };
    assert_eq!(u8::from(all), 0xF0);
    let none = FlagsRegister { zero: false, subtract: false, half_carry: false, carry: false };
    assert_eq!(u8::from(none), 0);
}

#[test]
fn flags_from_byte_ignores_low_nibble() {
    let f = FlagsRegister::from(0b0101_1111);
    assert!(!f.zero);
    assert!(f.subtract);
    assert!(!f.half_carry);
    assert!(f.carry);
    assert_eq!(u8::from(FlagsRegister::from(0xFFu8)), 0xF0);
}

#[test]
fn flags_byte_roundtrip() {
    for b in 0..=255u8 {
        assert_eq!(u8::from(FlagsRegister::from(b)), b & 0xF0);
    }
}

#[test]
fn new_registers_are_zero() {
    let r = Registers::new();
    assert_eq!(r.get_af(), 0);
    assert_eq!(r.get_bc(), 0);
    assert_eq!(r.get_de(), 0);
    assert_eq!(r.get_hl(), 0);
}

#[test]
fn pairs_roundtrip() {
    let mut r = Registers::new();
    r.set_bc(0x1234);
    r.set_de(0xABCD);
    r.set_hl(0xFF01);
    assert_eq!(r.b, 0x12);
    assert_eq!(r.c, 0x34);
    assert_eq!(r.d, 0xAB);
    assert_eq!(r.e, 0xCD);
    assert_eq!(r.h, 0xFF);
    assert_eq!(r.l, 0x01);
    assert_eq!(r.get_bc(), 0x1234);
    assert_eq!(r.get_de(), 0xABCD);
    assert_eq!(r.get_hl(), 0xFF01);
}

#[test]
fn af_clears_low_nibble() {
    let mut r = Registers::new();
    r.set_af(0x12FF);
    assert_eq!(r.a, 0x12);
    assert!(r.f.zero && r.f.subtract && r.f.half_carry && r.f.carry);
    assert_eq!(r.get_af(), 0x12F0);
    r.set_af(0x3450);
    assert_eq!(r.get_af(), 0x3450);
    assert!(!r.f.zero && r.f.subtract && !r.f.half_carry && r.f.carry);
}

#[test]
fn setting_a_pair_keeps_the_others() {
    let mut r = Registers::new();
    r.set_bc(0x0102);
    r.set_de(0x0304);
    r.set_hl(0x0506);
    r.set_af(0x07F0);
    r.set_de(0xBEEF);
    assert_eq!(r.get_bc(), 0x0102);
    assert_eq!(r.get_hl(), 0x0506);
    assert_eq!(r.get_af(), 0x07F0);
}
