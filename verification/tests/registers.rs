use gameboy::system::registers::{high_byte, low_byte, pair, FlagsRegister, Registers};

#[test]
fn flags_round_trip_keeps_high_nibble() {
    let mut b: u16 = 0;
    while b < 256 {
        let byte = b as u8;
        let flags = FlagsRegister::from(byte & 0xF0);
        assert_eq!(u8::from(flags), byte & 0xF0);
        assert_eq!(flags.to_u8() & 0x0F, 0);
        assert_eq!(FlagsRegister::from(byte).to_u8(), byte & 0xF0);
        b += 1;
    }
}

#[test]
fn flag_bits_stand_in_the_top_nibble() {
    let none = FlagsRegister { zero: false, subtract: false, half_carry: false, carry: false };
    assert_eq!(none.to_u8(), 0x00);
    assert_eq!(FlagsRegister { zero: true, ..none }.to_u8(), 0x80);
    assert_eq!(FlagsRegister { subtract: true, ..none }.to_u8(), 0x40);
    assert_eq!(FlagsRegister { half_carry: true, ..none }.to_u8(), 0x20);
    assert_eq!(FlagsRegister { carry: true, ..none }.to_u8(), 0x10);
    let from = FlagsRegister::from(0xB0);
    assert_eq!(
        from,
        FlagsRegister { zero: true, subtract: false, half_carry: true, carry: true }
    );
}

#[test]
fn pairs_read_back_what_was_written() {
    let mut regs = Registers::new();
    for v in [0x0000u16, 0x0001, 0x1234, 0x8000, 0xABCD, 0xFFFF] {
        regs.set_bc(v);
        assert_eq!(regs.get_bc(), v);
        regs.set_de(v);
        assert_eq!(regs.get_de(), v);
        regs.set_hl(v);
        assert_eq!(regs.get_hl(), v);
        regs.set_af(v);
        assert_eq!(regs.get_af(), v & 0xFFF0);
    }
    assert_eq!(regs.b, 0xFF);
    assert_eq!(regs.c, 0xFF);
}

#[test]
fn pairs_are_big_endian_over_the_bytes() {
    let mut regs = Registers::new();
    regs.set_bc(0x1234);
    assert_eq!((regs.b, regs.c), (0x12, 0x34));
    regs.set_de(0x56A8);
    assert_eq!((regs.d, regs.e), (0x56, 0xA8));
    regs.set_hl(0x9CDE);
    assert_eq!((regs.h, regs.l), (0x9C, 0xDE));
    regs.set_af(0x01FF);
    assert_eq!(regs.a, 0x01);
    assert!(regs.f.zero && regs.f.subtract && regs.f.half_carry && regs.f.carry);
    assert_eq!(regs.get_af(), 0x01F0);
    regs.a = 0xAB;
    regs.f = FlagsRegister { zero: true, subtract: false, half_carry: false, carry: true };
    assert_eq!(regs.get_af(), 0xAB90);
}

#[test]
fn new_registers_are_zero() {
    let regs = Registers::new();
    assert_eq!(regs.get_af(), 0);
    assert_eq!(regs.get_bc(), 0);
    assert_eq!(regs.get_de(), 0);
    assert_eq!(regs.get_hl(), 0);
}

#[test]
fn words_split_and_join() {
    assert_eq!(pair(0x12, 0x34), 0x1234);
    assert_eq!(high_byte(0xBEEF), 0xBE);
    assert_eq!(low_byte(0xBEEF), 0xEF);
    assert_eq!(pair(high_byte(0xFFFE), low_byte(0xFFFE)), 0xFFFE);
}
