use gameboy::system::instructions::{
    Arithmetic16Target, ArithmeticSource, ArithmeticTarget, IncDecTarget, Instructions, JumpTest,
    LoadByteSource, LoadByteTarget, LoadOtherSource, LoadOtherTarget, LoadType, LoadWordSource,
    LoadWordTarget, RSTTargets, StackTarget,
};

#[test]
fn undefined_opcodes_decode_to_nothing() {
    let undefined = [0xCBu8, 0xD3, 0xDB, 0xDD, 0xE3, 0xE4, 0xEB, 0xEC, 0xED, 0xF4, 0xFC, 0xFD];
    let mut b: u16 = 0;
    while b < 256 {
        let byte = b as u8;
        assert_eq!(
            Instructions::from_byte(byte, false).is_none(),
            undefined.contains(&byte)
        );
        assert_eq!(
            Instructions::from_byte(byte, false),
            Instructions::from_byte_not_prefixed(byte)
        );
        assert!(Instructions::from_byte(byte, true).is_some());
        assert_eq!(
            Instructions::from_byte(byte, true),
            Instructions::from_byte_prefixed(byte)
        );
        b += 1;
    }
}

#[test]
fn miscellaneous_opcodes() {
    assert_eq!(Instructions::from_byte(0x00, false), Some(Instructions::NOP));
    assert_eq!(Instructions::from_byte(0x10, false), Some(Instructions::STOP));
    assert_eq!(Instructions::from_byte(0x76, false), Some(Instructions::HALT));
    assert_eq!(Instructions::from_byte(0xF3, false), Some(Instructions::DI));
    assert_eq!(Instructions::from_byte(0xFB, false), Some(Instructions::EI));
    assert_eq!(Instructions::from_byte(0x27, false), Some(Instructions::DAA));
    assert_eq!(Instructions::from_byte(0x2F, false), Some(Instructions::CPL));
    assert_eq!(Instructions::from_byte(0x3F, false), Some(Instructions::CCF));
    assert_eq!(Instructions::from_byte(0x37, false), Some(Instructions::SCF));
    assert_eq!(Instructions::from_byte(0x07, false), Some(Instructions::RLCA));
    assert_eq!(Instructions::from_byte(0x0F, false), Some(Instructions::RRCA));
    assert_eq!(Instructions::from_byte(0x17, false), Some(Instructions::RLA));
    assert_eq!(Instructions::from_byte(0x1F, false), Some(Instructions::RRA));
}

#[test]
fn load_opcodes() {
    let ld = |t, s| Some(Instructions::LD(LoadType::Byte(t, s)));
    assert_eq!(Instructions::from_byte(0x40, false), ld(LoadByteTarget::B, LoadByteSource::B));
    assert_eq!(Instructions::from_byte(0x41, false), ld(LoadByteTarget::B, LoadByteSource::C));
    assert_eq!(Instructions::from_byte(0x4E, false), ld(LoadByteTarget::C, LoadByteSource::HL));
    assert_eq!(Instructions::from_byte(0x57, false), ld(LoadByteTarget::D, LoadByteSource::A));
    assert_eq!(Instructions::from_byte(0x70, false), ld(LoadByteTarget::HL, LoadByteSource::B));
    assert_eq!(Instructions::from_byte(0x7F, false), ld(LoadByteTarget::A, LoadByteSource::A));
    assert_eq!(Instructions::from_byte(0x7E, false), ld(LoadByteTarget::A, LoadByteSource::HL));
    assert_eq!(Instructions::from_byte(0x06, false), ld(LoadByteTarget::B, LoadByteSource::D8));
    assert_eq!(Instructions::from_byte(0x36, false), ld(LoadByteTarget::HL, LoadByteSource::D8));
    assert_eq!(Instructions::from_byte(0x3E, false), ld(LoadByteTarget::A, LoadByteSource::D8));
    assert_eq!(Instructions::from_byte(0x02, false), ld(LoadByteTarget::BC, LoadByteSource::A));
    assert_eq!(Instructions::from_byte(0x12, false), ld(LoadByteTarget::DE, LoadByteSource::A));
    assert_eq!(Instructions::from_byte(0x22, false), ld(LoadByteTarget::HLI, LoadByteSource::A));
    assert_eq!(Instructions::from_byte(0x32, false), ld(LoadByteTarget::HLD, LoadByteSource::A));
    assert_eq!(Instructions::from_byte(0x0A, false), ld(LoadByteTarget::A, LoadByteSource::BC));
    assert_eq!(Instructions::from_byte(0x1A, false), ld(LoadByteTarget::A, LoadByteSource::DE));
    assert_eq!(Instructions::from_byte(0x2A, false), ld(LoadByteTarget::A, LoadByteSource::HLI));
    assert_eq!(Instructions::from_byte(0x3A, false), ld(LoadByteTarget::A, LoadByteSource::HLD));
    assert_eq!(Instructions::from_byte(0xEA, false), ld(LoadByteTarget::A16, LoadByteSource::A));
    assert_eq!(Instructions::from_byte(0xFA, false), ld(LoadByteTarget::A, LoadByteSource::A16));
    let word = |t, s| Some(Instructions::LD(LoadType::Word(t, s)));
    assert_eq!(Instructions::from_byte(0x01, false), word(LoadWordTarget::BC, LoadWordSource::D16));
    assert_eq!(Instructions::from_byte(0x11, false), word(LoadWordTarget::DE, LoadWordSource::D16));
    assert_eq!(Instructions::from_byte(0x21, false), word(LoadWordTarget::HL, LoadWordSource::D16));
    assert_eq!(Instructions::from_byte(0x31, false), word(LoadWordTarget::SP, LoadWordSource::D16));
    assert_eq!(Instructions::from_byte(0x08, false), word(LoadWordTarget::A16, LoadWordSource::SP));
    assert_eq!(Instructions::from_byte(0xF8, false), word(LoadWordTarget::HL, LoadWordSource::SPr8));
    assert_eq!(Instructions::from_byte(0xF9, false), word(LoadWordTarget::SP, LoadWordSource::HL));
    let high = |t, s| Some(Instructions::LDH(LoadType::Other(t, s)));
    assert_eq!(Instructions::from_byte(0xE0, false), high(LoadOtherTarget::A8, LoadOtherSource::A));
    assert_eq!(
        Instructions::from_byte(0xE2, false),
        high(LoadOtherTarget::CAddress, LoadOtherSource::A)
    );
    assert_eq!(Instructions::from_byte(0xF0, false), high(LoadOtherTarget::A, LoadOtherSource::A8));
    assert_eq!(
        Instructions::from_byte(0xF2, false),
        high(LoadOtherTarget::A, LoadOtherSource::CAddress)
    );
}

#[test]
fn arithmetic_opcodes() {
    let a = ArithmeticTarget::A;
    assert_eq!(Instructions::from_byte(0x80, false), Some(Instructions::ADD(a, ArithmeticSource::B)));
    assert_eq!(Instructions::from_byte(0x81, false), Some(Instructions::ADD(a, ArithmeticSource::C)));
    assert_eq!(Instructions::from_byte(0x82, false), Some(Instructions::ADD(a, ArithmeticSource::D)));
    assert_eq!(Instructions::from_byte(0x83, false), Some(Instructions::ADD(a, ArithmeticSource::E)));
    assert_eq!(Instructions::from_byte(0x84, false), Some(Instructions::ADD(a, ArithmeticSource::H)));
    assert_eq!(Instructions::from_byte(0x85, false), Some(Instructions::ADD(a, ArithmeticSource::L)));
    assert_eq!(
        Instructions::from_byte(0x86, false),
        Some(Instructions::ADD(a, ArithmeticSource::HLAddr))
    );
    assert_eq!(Instructions::from_byte(0x87, false), Some(Instructions::ADD(a, ArithmeticSource::A)));
    assert_eq!(Instructions::from_byte(0x88, false), Some(Instructions::ADC(ArithmeticSource::B)));
    assert_eq!(Instructions::from_byte(0x90, false), Some(Instructions::SUB(ArithmeticSource::B)));
    assert_eq!(Instructions::from_byte(0x9F, false), Some(Instructions::SBC(ArithmeticSource::A)));
    assert_eq!(Instructions::from_byte(0xA6, false), Some(Instructions::AND(ArithmeticSource::HLAddr)));
    assert_eq!(Instructions::from_byte(0xAF, false), Some(Instructions::XOR(ArithmeticSource::A)));
    assert_eq!(Instructions::from_byte(0xB1, false), Some(Instructions::OR(ArithmeticSource::C)));
    assert_eq!(Instructions::from_byte(0xBE, false), Some(Instructions::CP(ArithmeticSource::HLAddr)));
    assert_eq!(Instructions::from_byte(0xC6, false), Some(Instructions::ADD(a, ArithmeticSource::U8)));
    assert_eq!(Instructions::from_byte(0xCE, false), Some(Instructions::ADC(ArithmeticSource::U8)));
    assert_eq!(Instructions::from_byte(0xD6, false), Some(Instructions::SUB(ArithmeticSource::U8)));
    assert_eq!(Instructions::from_byte(0xDE, false), Some(Instructions::SBC(ArithmeticSource::U8)));
    assert_eq!(Instructions::from_byte(0xE6, false), Some(Instructions::AND(ArithmeticSource::U8)));
    assert_eq!(Instructions::from_byte(0xEE, false), Some(Instructions::XOR(ArithmeticSource::U8)));
    assert_eq!(Instructions::from_byte(0xF6, false), Some(Instructions::OR(ArithmeticSource::U8)));
    assert_eq!(Instructions::from_byte(0xFE, false), Some(Instructions::CP(ArithmeticSource::U8)));
    assert_eq!(
        Instructions::from_byte(0xE8, false),
        Some(Instructions::ADD(ArithmeticTarget::SP, ArithmeticSource::I8))
    );
    assert_eq!(Instructions::from_byte(0x09, false), Some(Instructions::ADD16(Arithmetic16Target::BC)));
    assert_eq!(Instructions::from_byte(0x19, false), Some(Instructions::ADD16(Arithmetic16Target::DE)));
    assert_eq!(Instructions::from_byte(0x29, false), Some(Instructions::ADD16(Arithmetic16Target::HL)));
    assert_eq!(Instructions::from_byte(0x39, false), Some(Instructions::ADD16(Arithmetic16Target::SP)));
    assert_eq!(Instructions::from_byte(0x04, false), Some(Instructions::INC(IncDecTarget::B)));
    assert_eq!(Instructions::from_byte(0x0C, false), Some(Instructions::INC(IncDecTarget::C)));
    assert_eq!(Instructions::from_byte(0x34, false), Some(Instructions::INC(IncDecTarget::HLAddr)));
    assert_eq!(Instructions::from_byte(0x3C, false), Some(Instructions::INC(IncDecTarget::A)));
    assert_eq!(Instructions::from_byte(0x23, false), Some(Instructions::INC(IncDecTarget::HL)));
    assert_eq!(Instructions::from_byte(0x33, false), Some(Instructions::INC(IncDecTarget::SP)));
    assert_eq!(Instructions::from_byte(0x05, false), Some(Instructions::DEC(IncDecTarget::B)));
    assert_eq!(Instructions::from_byte(0x3D, false), Some(Instructions::DEC(IncDecTarget::A)));
    assert_eq!(Instructions::from_byte(0x0B, false), Some(Instructions::DEC(IncDecTarget::BC)));
    assert_eq!(Instructions::from_byte(0x1B, false), Some(Instructions::DEC(IncDecTarget::DE)));
    assert_eq!(Instructions::from_byte(0x35, false), Some(Instructions::DEC(IncDecTarget::HLAddr)));
}

#[test]
fn control_and_stack_opcodes() {
    assert_eq!(Instructions::from_byte(0x18, false), Some(Instructions::JR(JumpTest::Always)));
    assert_eq!(Instructions::from_byte(0x20, false), Some(Instructions::JR(JumpTest::NotZero)));
    assert_eq!(Instructions::from_byte(0x28, false), Some(Instructions::JR(JumpTest::Zero)));
    assert_eq!(Instructions::from_byte(0x30, false), Some(Instructions::JR(JumpTest::NotCarry)));
    assert_eq!(Instructions::from_byte(0x38, false), Some(Instructions::JR(JumpTest::Carry)));
    assert_eq!(Instructions::from_byte(0xC3, false), Some(Instructions::JP(JumpTest::Always)));
    assert_eq!(Instructions::from_byte(0xC2, false), Some(Instructions::JP(JumpTest::NotZero)));
    assert_eq!(Instructions::from_byte(0xCA, false), Some(Instructions::JP(JumpTest::Zero)));
    assert_eq!(Instructions::from_byte(0xD2, false), Some(Instructions::JP(JumpTest::NotCarry)));
    assert_eq!(Instructions::from_byte(0xDA, false), Some(Instructions::JP(JumpTest::Carry)));
    assert_eq!(Instructions::from_byte(0xE9, false), Some(Instructions::JPHL));
    assert_eq!(Instructions::from_byte(0xCD, false), Some(Instructions::CALL(JumpTest::Always)));
    assert_eq!(Instructions::from_byte(0xC4, false), Some(Instructions::CALL(JumpTest::NotZero)));
    assert_eq!(Instructions::from_byte(0xDC, false), Some(Instructions::CALL(JumpTest::Carry)));
    assert_eq!(Instructions::from_byte(0xC9, false), Some(Instructions::RET(JumpTest::Always)));
    assert_eq!(Instructions::from_byte(0xC0, false), Some(Instructions::RET(JumpTest::NotZero)));
    assert_eq!(Instructions::from_byte(0xC8, false), Some(Instructions::RET(JumpTest::Zero)));
    assert_eq!(Instructions::from_byte(0xD0, false), Some(Instructions::RET(JumpTest::NotCarry)));
    assert_eq!(Instructions::from_byte(0xD8, false), Some(Instructions::RET(JumpTest::Carry)));
    assert_eq!(Instructions::from_byte(0xD9, false), Some(Instructions::RETI));
    assert_eq!(Instructions::from_byte(0xC7, false), Some(Instructions::RST(RSTTargets::H00)));
    assert_eq!(Instructions::from_byte(0xCF, false), Some(Instructions::RST(RSTTargets::H08)));
    assert_eq!(Instructions::from_byte(0xD7, false), Some(Instructions::RST(RSTTargets::H10)));
    assert_eq!(Instructions::from_byte(0xDF, false), Some(Instructions::RST(RSTTargets::H18)));
    assert_eq!(Instructions::from_byte(0xE7, false), Some(Instructions::RST(RSTTargets::H20)));
    assert_eq!(Instructions::from_byte(0xEF, false), Some(Instructions::RST(RSTTargets::H28)));
    assert_eq!(Instructions::from_byte(0xF7, false), Some(Instructions::RST(RSTTargets::H30)));
    assert_eq!(Instructions::from_byte(0xFF, false), Some(Instructions::RST(RSTTargets::H38)));
    assert_eq!(Instructions::from_byte(0xC5, false), Some(Instructions::PUSH(StackTarget::BC)));
    assert_eq!(Instructions::from_byte(0xD5, false), Some(Instructions::PUSH(StackTarget::DE)));
    assert_eq!(Instructions::from_byte(0xE5, false), Some(Instructions::PUSH(StackTarget::HL)));
    assert_eq!(Instructions::from_byte(0xF5, false), Some(Instructions::PUSH(StackTarget::AF)));
    assert_eq!(Instructions::from_byte(0xC1, false), Some(Instructions::POP(StackTarget::BC)));
    assert_eq!(Instructions::from_byte(0xD1, false), Some(Instructions::POP(StackTarget::DE)));
    assert_eq!(Instructions::from_byte(0xE1, false), Some(Instructions::POP(StackTarget::HL)));
    assert_eq!(Instructions::from_byte(0xF1, false), Some(Instructions::POP(StackTarget::AF)));
}

#[test]
fn prefixed_opcodes() {
    assert_eq!(Instructions::from_byte(0x00, true), Some(Instructions::RLC(ArithmeticSource::B)));
    assert_eq!(Instructions::from_byte(0x07, true), Some(Instructions::RLC(ArithmeticSource::A)));
    assert_eq!(Instructions::from_byte(0x09, true), Some(Instructions::RRC(ArithmeticSource::C)));
    assert_eq!(Instructions::from_byte(0x12, true), Some(Instructions::RL(ArithmeticSource::D)));
    assert_eq!(Instructions::from_byte(0x1B, true), Some(Instructions::RR(ArithmeticSource::E)));
    assert_eq!(Instructions::from_byte(0x24, true), Some(Instructions::SLA(ArithmeticSource::H)));
    assert_eq!(Instructions::from_byte(0x2D, true), Some(Instructions::SRA(ArithmeticSource::L)));
    assert_eq!(Instructions::from_byte(0x36, true), Some(Instructions::SWAP(ArithmeticSource::HLAddr)));
    assert_eq!(Instructions::from_byte(0x3F, true), Some(Instructions::SRL(ArithmeticSource::A)));
    assert_eq!(Instructions::from_byte(0x40, true), Some(Instructions::BIT(0, ArithmeticSource::B)));
    assert_eq!(Instructions::from_byte(0x7C, true), Some(Instructions::BIT(7, ArithmeticSource::H)));
    assert_eq!(Instructions::from_byte(0x7E, true), Some(Instructions::BIT(7, ArithmeticSource::HLAddr)));
    assert_eq!(Instructions::from_byte(0x80, true), Some(Instructions::RES(0, ArithmeticSource::B)));
    assert_eq!(Instructions::from_byte(0xBF, true), Some(Instructions::RES(7, ArithmeticSource::A)));
    assert_eq!(Instructions::from_byte(0x9E, true), Some(Instructions::RES(3, ArithmeticSource::HLAddr)));
    assert_eq!(Instructions::from_byte(0xC0, true), Some(Instructions::SET(0, ArithmeticSource::B)));
    assert_eq!(Instructions::from_byte(0xFF, true), Some(Instructions::SET(7, ArithmeticSource::A)));
    assert_eq!(Instructions::from_byte(0xD6, true), Some(Instructions::SET(2, ArithmeticSource::HLAddr)));
}
