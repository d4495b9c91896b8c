//! The instruction set: what each opcode byte stands for.

use vstd::prelude::*;

verus! {

#[derive(Clone, Copy, Debug, PartialEq, Eq)]
pub enum LoadByteTarget {
    A,
    B,
    C,
    D,
    E,
    H,
    L,
    HLI,
    HLD,
    HL,
    BC,
    DE,
    A16,
}

#[derive(Clone, Copy, Debug, PartialEq, Eq)]
pub enum LoadByteSource {
    A,
    B,
    C,
    D,
    E,
    H,
    L,
    D8,
    HL,
    HLI,
    HLD,
    A16,
    BC,
    DE,
}

#[derive(Clone, Copy, Debug, PartialEq, Eq)]
pub enum LoadWordSource {
    D16,
    HL,
    SP,
    SPr8,
}

#[derive(Clone, Copy, Debug, PartialEq, Eq)]
pub enum LoadWordTarget {
    BC,
    DE,
    HL,
    SP,
    A16,
}

#[derive(Clone, Copy, Debug, PartialEq, Eq)]
pub enum LoadOtherTarget {
    A,
    A8,
    CAddress,
}

#[derive(Clone, Copy, Debug, PartialEq, Eq)]
pub enum LoadOtherSource {
    A,
    A8,
    CAddress,
}

#[derive(Clone, Copy, Debug, PartialEq, Eq)]
pub enum StackTarget {
    BC,
    DE,
    HL,
    AF,
}

#[derive(Clone, Copy, Debug, PartialEq, Eq)]
pub enum LoadType {
    Byte(LoadByteTarget, LoadByteSource),
    Word(LoadWordTarget, LoadWordSource),
    Other(LoadOtherTarget, LoadOtherSource),
}

#[derive(Clone, Copy, Debug, PartialEq, Eq)]
pub enum RSTTargets {
    H00,
    H10,
    H20,
    H30,
    H08,
    H18,
    H28,
    H38,
}

/// What INC and DEC work on: a byte register, the byte that HL points to
/// (`HLAddr`), or a register pair.
#[derive(Clone, Copy, Debug, PartialEq, Eq)]
pub enum IncDecTarget {
    A,
    B,
    C,
    D,
    E,
    H,
    L,
    HL,
    HLAddr,
    BC,
    DE,
    SP,
}

#[derive(Clone, Copy, Debug, PartialEq, Eq)]
pub enum Arithmetic16Target {
    HL,
    BC,
    DE,
    SP,
}

#[derive(Clone, Copy, Debug, PartialEq, Eq)]
pub enum ArithmeticTarget {
    A,
    SP,
}

/// The operand of an arithmetic, rotate or bit instruction: a byte
/// register, the byte that HL points to, or the byte after the opcode, read
/// as unsigned (`U8`) or signed (`I8`).
#[derive(Clone, Copy, Debug, PartialEq, Eq)]
pub enum ArithmeticSource {
    A,
    B,
    C,
    D,
    E,
    H,
    L,
    U8,
    HLAddr,
    I8,
}

#[derive(Clone, Copy, Debug, PartialEq, Eq)]
pub enum JumpTest {
    NotZero,
    Zero,
    NotCarry,
    Carry,
    Always,
}

#[derive(Clone, Copy, Debug, PartialEq, Eq)]
pub enum Instructions {
    NOP,
    HALT,
    STOP,
    DI,
    EI,
    DAA,
    CPL,
    CCF,
    SCF,
    RLCA,
    RRCA,
    RLA,
    RRA,
    LD(LoadType),
    LDH(LoadType),
    INC(IncDecTarget),
    DEC(IncDecTarget),
    ADD(ArithmeticTarget, ArithmeticSource),
    ADD16(Arithmetic16Target),
    ADC(ArithmeticSource),
    SUB(ArithmeticSource),
    SBC(ArithmeticSource),
    AND(ArithmeticSource),
    XOR(ArithmeticSource),
    OR(ArithmeticSource),
    CP(ArithmeticSource),
    JR(JumpTest),
    JP(JumpTest),
    JPHL,
    CALL(JumpTest),
    RET(JumpTest),
    RETI,
    RST(RSTTargets),
    PUSH(StackTarget),
    POP(StackTarget),
    RLC(ArithmeticSource),
    RRC(ArithmeticSource),
    RL(ArithmeticSource),
    RR(ArithmeticSource),
    SLA(ArithmeticSource),
    SRA(ArithmeticSource),
    SWAP(ArithmeticSource),
    SRL(ArithmeticSource),
    BIT(u8, ArithmeticSource),
    RES(u8, ArithmeticSource),
    SET(u8, ArithmeticSource),
}

/// The operand that the low three bits of an opcode name.
pub open spec fn spec_operand(index: u8) -> ArithmeticSource {
    match index % 8 {
        0 => ArithmeticSource::B,
        1 => ArithmeticSource::C,
        2 => ArithmeticSource::D,
        3 => ArithmeticSource::E,
        4 => ArithmeticSource::H,
        5 => ArithmeticSource::L,
        6 => ArithmeticSource::HLAddr,
        _ => ArithmeticSource::A,
    }
}

/// The source of a register-to-register load that the low three bits of its
/// opcode name.
pub open spec fn spec_load_source(index: u8) -> LoadByteSource {
    match index % 8 {
        0 => LoadByteSource::B,
        1 => LoadByteSource::C,
        2 => LoadByteSource::D,
        3 => LoadByteSource::E,
        4 => LoadByteSource::H,
        5 => LoadByteSource::L,
        6 => LoadByteSource::HL,
        _ => LoadByteSource::A,
    }
}

/// The target of a register-to-register load that bits 3 to 5 of its opcode
/// name.
pub open spec fn spec_load_target(index: u8) -> LoadByteTarget {
    match index % 8 {
        0 => LoadByteTarget::B,
        1 => LoadByteTarget::C,
        2 => LoadByteTarget::D,
        3 => LoadByteTarget::E,
        4 => LoadByteTarget::H,
        5 => LoadByteTarget::L,
        6 => LoadByteTarget::HL,
        _ => LoadByteTarget::A,
    }
}

/// The arithmetic instruction that an operation number and an operand make.
pub open spec fn spec_arithmetic(operation: u8, source: ArithmeticSource) -> Instructions {
    match operation % 8 {
        0 => Instructions::ADD(ArithmeticTarget::A, source),
        1 => Instructions::ADC(source),
        2 => Instructions::SUB(source),
        3 => Instructions::SBC(source),
        4 => Instructions::AND(source),
        5 => Instructions::XOR(source),
        6 => Instructions::OR(source),
        _ => Instructions::CP(source),
    }
}

/// What an opcode below 0x40 or from 0xC0 on stands for, if it is defined.
pub open spec fn spec_decode_table(byte: u8) -> Option<Instructions> {
    match byte {
        0x00 => Some(Instructions::NOP),
        0x01 => Some(Instructions::LD(LoadType::Word(LoadWordTarget::BC, LoadWordSource::D16))),
        0x02 => Some(Instructions::LD(LoadType::Byte(LoadByteTarget::BC, LoadByteSource::A))),
        0x03 => Some(Instructions::INC(IncDecTarget::BC)),
        0x04 => Some(Instructions::INC(IncDecTarget::B)),
        0x05 => Some(Instructions::DEC(IncDecTarget::B)),
        0x06 => Some(Instructions::LD(LoadType::Byte(LoadByteTarget::B, LoadByteSource::D8))),
        0x07 => Some(Instructions::RLCA),
        0x08 => Some(Instructions::LD(LoadType::Word(LoadWordTarget::A16, LoadWordSource::SP))),
        0x09 => Some(Instructions::ADD16(Arithmetic16Target::BC)),
        0x0A => Some(Instructions::LD(LoadType::Byte(LoadByteTarget::A, LoadByteSource::BC))),
        0x0B => Some(Instructions::DEC(IncDecTarget::BC)),
        0x0C => Some(Instructions::INC(IncDecTarget::C)),
        0x0D => Some(Instructions::DEC(IncDecTarget::C)),
        0x0E => Some(Instructions::LD(LoadType::Byte(LoadByteTarget::C, LoadByteSource::D8))),
        0x0F => Some(Instructions::RRCA),
        0x10 => Some(Instructions::STOP),
        0x11 => Some(Instructions::LD(LoadType::Word(LoadWordTarget::DE, LoadWordSource::D16))),
        0x12 => Some(Instructions::LD(LoadType::Byte(LoadByteTarget::DE, LoadByteSource::A))),
        0x13 => Some(Instructions::INC(IncDecTarget::DE)),
        0x14 => Some(Instructions::INC(IncDecTarget::D)),
        0x15 => Some(Instructions::DEC(IncDecTarget::D)),
        0x16 => Some(Instructions::LD(LoadType::Byte(LoadByteTarget::D, LoadByteSource::D8))),
        0x17 => Some(Instructions::RLA),
        0x18 => Some(Instructions::JR(JumpTest::Always)),
        0x19 => Some(Instructions::ADD16(Arithmetic16Target::DE)),
        0x1A => Some(Instructions::LD(LoadType::Byte(LoadByteTarget::A, LoadByteSource::DE))),
        0x1B => Some(Instructions::DEC(IncDecTarget::DE)),
        0x1C => Some(Instructions::INC(IncDecTarget::E)),
        0x1D => Some(Instructions::DEC(IncDecTarget::E)),
        0x1E => Some(Instructions::LD(LoadType::Byte(LoadByteTarget::E, LoadByteSource::D8))),
        0x1F => Some(Instructions::RRA),
        0x20 => Some(Instructions::JR(JumpTest::NotZero)),
        0x21 => Some(Instructions::LD(LoadType::Word(LoadWordTarget::HL, LoadWordSource::D16))),
        0x22 => Some(Instructions::LD(LoadType::Byte(LoadByteTarget::HLI, LoadByteSource::A))),
        0x23 => Some(Instructions::INC(IncDecTarget::HL)),
        0x24 => Some(Instructions::INC(IncDecTarget::H)),
        0x25 => Some(Instructions::DEC(IncDecTarget::H)),
        0x26 => Some(Instructions::LD(LoadType::Byte(LoadByteTarget::H, LoadByteSource::D8))),
        0x27 => Some(Instructions::DAA),
        0x28 => Some(Instructions::JR(JumpTest::Zero)),
        0x29 => Some(Instructions::ADD16(Arithmetic16Target::HL)),
        0x2A => Some(Instructions::LD(LoadType::Byte(LoadByteTarget::A, LoadByteSource::HLI))),
        0x2B => Some(Instructions::DEC(IncDecTarget::HL)),
        0x2C => Some(Instructions::INC(IncDecTarget::L)),
        0x2D => Some(Instructions::DEC(IncDecTarget::L)),
        0x2E => Some(Instructions::LD(LoadType::Byte(LoadByteTarget::L, LoadByteSource::D8))),
        0x2F => Some(Instructions::CPL),
        0x30 => Some(Instructions::JR(JumpTest::NotCarry)),
        0x31 => Some(Instructions::LD(LoadType::Word(LoadWordTarget::SP, LoadWordSource::D16))),
        0x32 => Some(Instructions::LD(LoadType::Byte(LoadByteTarget::HLD, LoadByteSource::A))),
        0x33 => Some(Instructions::INC(IncDecTarget::SP)),
        0x34 => Some(Instructions::INC(IncDecTarget::HLAddr)),
        0x35 => Some(Instructions::DEC(IncDecTarget::HLAddr)),
        0x36 => Some(Instructions::LD(LoadType::Byte(LoadByteTarget::HL, LoadByteSource::D8))),
        0x37 => Some(Instructions::SCF),
        0x38 => Some(Instructions::JR(JumpTest::Carry)),
        0x39 => Some(Instructions::ADD16(Arithmetic16Target::SP)),
        0x3A => Some(Instructions::LD(LoadType::Byte(LoadByteTarget::A, LoadByteSource::HLD))),
        0x3B => Some(Instructions::DEC(IncDecTarget::SP)),
        0x3C => Some(Instructions::INC(IncDecTarget::A)),
        0x3D => Some(Instructions::DEC(IncDecTarget::A)),
        0x3E => Some(Instructions::LD(LoadType::Byte(LoadByteTarget::A, LoadByteSource::D8))),
        0x3F => Some(Instructions::CCF),
        0xC0 => Some(Instructions::RET(JumpTest::NotZero)),
        0xC1 => Some(Instructions::POP(StackTarget::BC)),
        0xC2 => Some(Instructions::JP(JumpTest::NotZero)),
        0xC3 => Some(Instructions::JP(JumpTest::Always)),
        0xC4 => Some(Instructions::CALL(JumpTest::NotZero)),
        0xC5 => Some(Instructions::PUSH(StackTarget::BC)),
        0xC6 => Some(Instructions::ADD(ArithmeticTarget::A, ArithmeticSource::U8)),
        0xC7 => Some(Instructions::RST(RSTTargets::H00)),
        0xC8 => Some(Instructions::RET(JumpTest::Zero)),
        0xC9 => Some(Instructions::RET(JumpTest::Always)),
        0xCA => Some(Instructions::JP(JumpTest::Zero)),
        0xCC => Some(Instructions::CALL(JumpTest::Zero)),
        0xCD => Some(Instructions::CALL(JumpTest::Always)),
        0xCE => Some(Instructions::ADC(ArithmeticSource::U8)),
        0xCF => Some(Instructions::RST(RSTTargets::H08)),
        0xD0 => Some(Instructions::RET(JumpTest::NotCarry)),
        0xD1 => Some(Instructions::POP(StackTarget::DE)),
        0xD2 => Some(Instructions::JP(JumpTest::NotCarry)),
        0xD4 => Some(Instructions::CALL(JumpTest::NotCarry)),
        0xD5 => Some(Instructions::PUSH(StackTarget::DE)),
        0xD6 => Some(Instructions::SUB(ArithmeticSource::U8)),
        0xD7 => Some(Instructions::RST(RSTTargets::H10)),
        0xD8 => Some(Instructions::RET(JumpTest::Carry)),
        0xD9 => Some(Instructions::RETI),
        0xDA => Some(Instructions::JP(JumpTest::Carry)),
        0xDC => Some(Instructions::CALL(JumpTest::Carry)),
        0xDE => Some(Instructions::SBC(ArithmeticSource::U8)),
        0xDF => Some(Instructions::RST(RSTTargets::H18)),
        0xE0 => Some(Instructions::LDH(LoadType::Other(LoadOtherTarget::A8, LoadOtherSource::A))),
        0xE1 => Some(Instructions::POP(StackTarget::HL)),
        0xE2 => Some(Instructions::LDH(LoadType::Other(LoadOtherTarget::CAddress, LoadOtherSource::A))),
        0xE5 => Some(Instructions::PUSH(StackTarget::HL)),
        0xE6 => Some(Instructions::AND(ArithmeticSource::U8)),
        0xE7 => Some(Instructions::RST(RSTTargets::H20)),
        0xE8 => Some(Instructions::ADD(ArithmeticTarget::SP, ArithmeticSource::I8)),
        0xE9 => Some(Instructions::JPHL),
        0xEA => Some(Instructions::LD(LoadType::Byte(LoadByteTarget::A16, LoadByteSource::A))),
        0xEE => Some(Instructions::XOR(ArithmeticSource::U8)),
        0xEF => Some(Instructions::RST(RSTTargets::H28)),
        0xF0 => Some(Instructions::LDH(LoadType::Other(LoadOtherTarget::A, LoadOtherSource::A8))),
        0xF1 => Some(Instructions::POP(StackTarget::AF)),
        0xF2 => Some(Instructions::LDH(LoadType::Other(LoadOtherTarget::A, LoadOtherSource::CAddress))),
        0xF3 => Some(Instructions::DI),
        0xF5 => Some(Instructions::PUSH(StackTarget::AF)),
        0xF6 => Some(Instructions::OR(ArithmeticSource::U8)),
        0xF7 => Some(Instructions::RST(RSTTargets::H30)),
        0xF8 => Some(Instructions::LD(LoadType::Word(LoadWordTarget::HL, LoadWordSource::SPr8))),
        0xF9 => Some(Instructions::LD(LoadType::Word(LoadWordTarget::SP, LoadWordSource::HL))),
        0xFA => Some(Instructions::LD(LoadType::Byte(LoadByteTarget::A, LoadByteSource::A16))),
        0xFB => Some(Instructions::EI),
        0xFE => Some(Instructions::CP(ArithmeticSource::U8)),
        0xFF => Some(Instructions::RST(RSTTargets::H38)),
        _ => None,
    }
}

/// What an opcode without prefix stands for. From 0x40 to 0x7F it is a load
/// between the operands that bits 3 to 5 and bits 0 to 2 name, but for 0x76,
/// which is HALT; from 0x80 to 0xBF an arithmetic operation on A, numbered by
/// bits 3 to 5, with the operand that bits 0 to 2 name; elsewhere the table
/// tells. The prefix itself and eleven more bytes stand for nothing.
pub open spec fn spec_decode_not_prefixed(byte: u8) -> Option<Instructions> {
    if byte == 0x76 {
        Some(Instructions::HALT)
    } else if 0x40 <= byte <= 0x7F {
        Some(
            Instructions::LD(
                LoadType::Byte(spec_load_target((byte / 8) as u8), spec_load_source(byte)),
            ),
        )
    } else if 0x80 <= byte <= 0xBF {
        Some(spec_arithmetic((byte / 8) as u8, spec_operand(byte)))
    } else {
        spec_decode_table(byte)
    }
}

/// What an opcode after the prefix 0xCB stands for: below 0x40 a rotate,
/// shift or swap, numbered by bits 3 to 5; from 0x40 on BIT, from 0x80 on
/// RES, from 0xC0 on SET, of the bit that bits 3 to 5 number; each on the
/// operand that bits 0 to 2 name.
pub open spec fn spec_decode_prefixed(byte: u8) -> Instructions {
    let source = spec_operand(byte);
    let number = (byte / 8 % 8) as u8;
    if byte >= 0xC0 {
        Instructions::SET(number, source)
    } else if byte >= 0x80 {
        Instructions::RES(number, source)
    } else if byte >= 0x40 {
        Instructions::BIT(number, source)
    } else {
        match number {
            0 => Instructions::RLC(source),
            1 => Instructions::RRC(source),
            2 => Instructions::RL(source),
            3 => Instructions::RR(source),
            4 => Instructions::SLA(source),
            5 => Instructions::SRA(source),
            6 => Instructions::SWAP(source),
            _ => Instructions::SRL(source),
        }
    }
}

/// What an opcode stands for, with or without prefix.
pub open spec fn spec_decode(byte: u8, prefixed: bool) -> Option<Instructions> {
    if prefixed {
        Some(spec_decode_prefixed(byte))
    } else {
        spec_decode_not_prefixed(byte)
    }
}

pub fn operand(index: u8) -> (r: ArithmeticSource)
    ensures
        r == spec_operand(index),
{
    match index % 8 {
        0 => ArithmeticSource::B,
        1 => ArithmeticSource::C,
        2 => ArithmeticSource::D,
        3 => ArithmeticSource::E,
        4 => ArithmeticSource::H,
        5 => ArithmeticSource::L,
        6 => ArithmeticSource::HLAddr,
        _ => ArithmeticSource::A,
    }
}

pub fn load_source(index: u8) -> (r: LoadByteSource)
    ensures
        r == spec_load_source(index),
{
    match index % 8 {
        0 => LoadByteSource::B,
        1 => LoadByteSource::C,
        2 => LoadByteSource::D,
        3 => LoadByteSource::E,
        4 => LoadByteSource::H,
        5 => LoadByteSource::L,
        6 => LoadByteSource::HL,
        _ => LoadByteSource::A,
    }
}

pub fn load_target(index: u8) -> (r: LoadByteTarget)
    ensures
        r == spec_load_target(index),
{
    match index % 8 {
        0 => LoadByteTarget::B,
        1 => LoadByteTarget::C,
        2 => LoadByteTarget::D,
        3 => LoadByteTarget::E,
        4 => LoadByteTarget::H,
        5 => LoadByteTarget::L,
        6 => LoadByteTarget::HL,
        _ => LoadByteTarget::A,
    }
}

pub fn arithmetic(operation: u8, source: ArithmeticSource) -> (r: Instructions)
    ensures
        r == spec_arithmetic(operation, source),
{
    match operation % 8 {
        0 => Instructions::ADD(ArithmeticTarget::A, source),
        1 => Instructions::ADC(source),
        2 => Instructions::SUB(source),
        3 => Instructions::SBC(source),
        4 => Instructions::AND(source),
        5 => Instructions::XOR(source),
        6 => Instructions::OR(source),
        _ => Instructions::CP(source),
    }
}

/// Looks an opcode up in the table of those that follow no pattern.
pub fn decode_table(byte: u8) -> (r: Option<Instructions>)
    ensures
        r == spec_decode_table(byte),
{
    match byte {
        0x00 => Some(Instructions::NOP),
        0x01 => Some(Instructions::LD(LoadType::Word(LoadWordTarget::BC, LoadWordSource::D16))),
        0x02 => Some(Instructions::LD(LoadType::Byte(LoadByteTarget::BC, LoadByteSource::A))),
        0x03 => Some(Instructions::INC(IncDecTarget::BC)),
        0x04 => Some(Instructions::INC(IncDecTarget::B)),
        0x05 => Some(Instructions::DEC(IncDecTarget::B)),
        0x06 => Some(Instructions::LD(LoadType::Byte(LoadByteTarget::B, LoadByteSource::D8))),
        0x07 => Some(Instructions::RLCA),
        0x08 => Some(Instructions::LD(LoadType::Word(LoadWordTarget::A16, LoadWordSource::SP))),
        0x09 => Some(Instructions::ADD16(Arithmetic16Target::BC)),
        0x0A => Some(Instructions::LD(LoadType::Byte(LoadByteTarget::A, LoadByteSource::BC))),
        0x0B => Some(Instructions::DEC(IncDecTarget::BC)),
        0x0C => Some(Instructions::INC(IncDecTarget::C)),
        0x0D => Some(Instructions::DEC(IncDecTarget::C)),
        0x0E => Some(Instructions::LD(LoadType::Byte(LoadByteTarget::C, LoadByteSource::D8))),
        0x0F => Some(Instructions::RRCA),
        0x10 => Some(Instructions::STOP),
        0x11 => Some(Instructions::LD(LoadType::Word(LoadWordTarget::DE, LoadWordSource::D16))),
        0x12 => Some(Instructions::LD(LoadType::Byte(LoadByteTarget::DE, LoadByteSource::A))),
        0x13 => Some(Instructions::INC(IncDecTarget::DE)),
        0x14 => Some(Instructions::INC(IncDecTarget::D)),
        0x15 => Some(Instructions::DEC(IncDecTarget::D)),
        0x16 => Some(Instructions::LD(LoadType::Byte(LoadByteTarget::D, LoadByteSource::D8))),
        0x17 => Some(Instructions::RLA),
        0x18 => Some(Instructions::JR(JumpTest::Always)),
        0x19 => Some(Instructions::ADD16(Arithmetic16Target::DE)),
        0x1A => Some(Instructions::LD(LoadType::Byte(LoadByteTarget::A, LoadByteSource::DE))),
        0x1B => Some(Instructions::DEC(IncDecTarget::DE)),
        0x1C => Some(Instructions::INC(IncDecTarget::E)),
        0x1D => Some(Instructions::DEC(IncDecTarget::E)),
        0x1E => Some(Instructions::LD(LoadType::Byte(LoadByteTarget::E, LoadByteSource::D8))),
        0x1F => Some(Instructions::RRA),
        0x20 => Some(Instructions::JR(JumpTest::NotZero)),
        0x21 => Some(Instructions::LD(LoadType::Word(LoadWordTarget::HL, LoadWordSource::D16))),
        0x22 => Some(Instructions::LD(LoadType::Byte(LoadByteTarget::HLI, LoadByteSource::A))),
        0x23 => Some(Instructions::INC(IncDecTarget::HL)),
        0x24 => Some(Instructions::INC(IncDecTarget::H)),
        0x25 => Some(Instructions::DEC(IncDecTarget::H)),
        0x26 => Some(Instructions::LD(LoadType::Byte(LoadByteTarget::H, LoadByteSource::D8))),
        0x27 => Some(Instructions::DAA),
        0x28 => Some(Instructions::JR(JumpTest::Zero)),
        0x29 => Some(Instructions::ADD16(Arithmetic16Target::HL)),
        0x2A => Some(Instructions::LD(LoadType::Byte(LoadByteTarget::A, LoadByteSource::HLI))),
        0x2B => Some(Instructions::DEC(IncDecTarget::HL)),
        0x2C => Some(Instructions::INC(IncDecTarget::L)),
        0x2D => Some(Instructions::DEC(IncDecTarget::L)),
        0x2E => Some(Instructions::LD(LoadType::Byte(LoadByteTarget::L, LoadByteSource::D8))),
        0x2F => Some(Instructions::CPL),
        0x30 => Some(Instructions::JR(JumpTest::NotCarry)),
        0x31 => Some(Instructions::LD(LoadType::Word(LoadWordTarget::SP, LoadWordSource::D16))),
        0x32 => Some(Instructions::LD(LoadType::Byte(LoadByteTarget::HLD, LoadByteSource::A))),
        0x33 => Some(Instructions::INC(IncDecTarget::SP)),
        0x34 => Some(Instructions::INC(IncDecTarget::HLAddr)),
        0x35 => Some(Instructions::DEC(IncDecTarget::HLAddr)),
        0x36 => Some(Instructions::LD(LoadType::Byte(LoadByteTarget::HL, LoadByteSource::D8))),
        0x37 => Some(Instructions::SCF),
        0x38 => Some(Instructions::JR(JumpTest::Carry)),
        0x39 => Some(Instructions::ADD16(Arithmetic16Target::SP)),
        0x3A => Some(Instructions::LD(LoadType::Byte(LoadByteTarget::A, LoadByteSource::HLD))),
        0x3B => Some(Instructions::DEC(IncDecTarget::SP)),
        0x3C => Some(Instructions::INC(IncDecTarget::A)),
        0x3D => Some(Instructions::DEC(IncDecTarget::A)),
        0x3E => Some(Instructions::LD(LoadType::Byte(LoadByteTarget::A, LoadByteSource::D8))),
        0x3F => Some(Instructions::CCF),
        0xC0 => Some(Instructions::RET(JumpTest::NotZero)),
        0xC1 => Some(Instructions::POP(StackTarget::BC)),
        0xC2 => Some(Instructions::JP(JumpTest::NotZero)),
        0xC3 => Some(Instructions::JP(JumpTest::Always)),
        0xC4 => Some(Instructions::CALL(JumpTest::NotZero)),
        0xC5 => Some(Instructions::PUSH(StackTarget::BC)),
        0xC6 => Some(Instructions::ADD(ArithmeticTarget::A, ArithmeticSource::U8)),
        0xC7 => Some(Instructions::RST(RSTTargets::H00)),
        0xC8 => Some(Instructions::RET(JumpTest::Zero)),
        0xC9 => Some(Instructions::RET(JumpTest::Always)),
        0xCA => Some(Instructions::JP(JumpTest::Zero)),
        0xCC => Some(Instructions::CALL(JumpTest::Zero)),
        0xCD => Some(Instructions::CALL(JumpTest::Always)),
        0xCE => Some(Instructions::ADC(ArithmeticSource::U8)),
        0xCF => Some(Instructions::RST(RSTTargets::H08)),
        0xD0 => Some(Instructions::RET(JumpTest::NotCarry)),
        0xD1 => Some(Instructions::POP(StackTarget::DE)),
        0xD2 => Some(Instructions::JP(JumpTest::NotCarry)),
        0xD4 => Some(Instructions::CALL(JumpTest::NotCarry)),
        0xD5 => Some(Instructions::PUSH(StackTarget::DE)),
        0xD6 => Some(Instructions::SUB(ArithmeticSource::U8)),
        0xD7 => Some(Instructions::RST(RSTTargets::H10)),
        0xD8 => Some(Instructions::RET(JumpTest::Carry)),
        0xD9 => Some(Instructions::RETI),
        0xDA => Some(Instructions::JP(JumpTest::Carry)),
        0xDC => Some(Instructions::CALL(JumpTest::Carry)),
        0xDE => Some(Instructions::SBC(ArithmeticSource::U8)),
        0xDF => Some(Instructions::RST(RSTTargets::H18)),
        0xE0 => Some(Instructions::LDH(LoadType::Other(LoadOtherTarget::A8, LoadOtherSource::A))),
        0xE1 => Some(Instructions::POP(StackTarget::HL)),
        0xE2 => Some(Instructions::LDH(LoadType::Other(LoadOtherTarget::CAddress, LoadOtherSource::A))),
        0xE5 => Some(Instructions::PUSH(StackTarget::HL)),
        0xE6 => Some(Instructions::AND(ArithmeticSource::U8)),
        0xE7 => Some(Instructions::RST(RSTTargets::H20)),
        0xE8 => Some(Instructions::ADD(ArithmeticTarget::SP, ArithmeticSource::I8)),
        0xE9 => Some(Instructions::JPHL),
        0xEA => Some(Instructions::LD(LoadType::Byte(LoadByteTarget::A16, LoadByteSource::A))),
        0xEE => Some(Instructions::XOR(ArithmeticSource::U8)),
        0xEF => Some(Instructions::RST(RSTTargets::H28)),
        0xF0 => Some(Instructions::LDH(LoadType::Other(LoadOtherTarget::A, LoadOtherSource::A8))),
        0xF1 => Some(Instructions::POP(StackTarget::AF)),
        0xF2 => Some(Instructions::LDH(LoadType::Other(LoadOtherTarget::A, LoadOtherSource::CAddress))),
        0xF3 => Some(Instructions::DI),
        0xF5 => Some(Instructions::PUSH(StackTarget::AF)),
        0xF6 => Some(Instructions::OR(ArithmeticSource::U8)),
        0xF7 => Some(Instructions::RST(RSTTargets::H30)),
        0xF8 => Some(Instructions::LD(LoadType::Word(LoadWordTarget::HL, LoadWordSource::SPr8))),
        0xF9 => Some(Instructions::LD(LoadType::Word(LoadWordTarget::SP, LoadWordSource::HL))),
        0xFA => Some(Instructions::LD(LoadType::Byte(LoadByteTarget::A, LoadByteSource::A16))),
        0xFB => Some(Instructions::EI),
        0xFE => Some(Instructions::CP(ArithmeticSource::U8)),
        0xFF => Some(Instructions::RST(RSTTargets::H38)),
        _ => None,
    }
}

impl Instructions {
    pub fn from_byte(byte: u8, prefixed: bool) -> (r: Option<Instructions>)
        ensures
            r == spec_decode(byte, prefixed),
            prefixed ==> r is Some,
    {
        if prefixed {
            Instructions::from_byte_prefixed(byte)
        } else {
            Instructions::from_byte_not_prefixed(byte)
        }
    }

    pub fn from_byte_prefixed(byte: u8) -> (r: Option<Instructions>)
        ensures
            r == Some(spec_decode_prefixed(byte)),
    {
        let source: ArithmeticSource = operand(byte);
        let number: u8 = byte / 8 % 8;
        let instruction = if byte >= 0xC0 {
            Instructions::SET(number, source)
        } else if byte >= 0x80 {
            Instructions::RES(number, source)
        } else if byte >= 0x40 {
            Instructions::BIT(number, source)
        } else {
            match number {
                0 => Instructions::RLC(source),
                1 => Instructions::RRC(source),
                2 => Instructions::RL(source),
                3 => Instructions::RR(source),
                4 => Instructions::SLA(source),
                5 => Instructions::SRA(source),
                6 => Instructions::SWAP(source),
                _ => Instructions::SRL(source),
            }
        };
        Some(instruction)
    }

    pub fn from_byte_not_prefixed(byte: u8) -> (r: Option<Instructions>)
        ensures
            r == spec_decode_not_prefixed(byte),
    {
        if byte == 0x76 {
            Some(Instructions::HALT)
        } else if 0x40 <= byte && byte <= 0x7F {
            Some(Instructions::LD(LoadType::Byte(load_target(byte / 8), load_source(byte))))
        } else if 0x80 <= byte && byte <= 0xBF {
            Some(arithmetic(byte / 8, operand(byte)))
        } else {
            decode_table(byte)
        }
    }
}

/// The bytes that stand for no instruction without prefix are the prefix
/// itself and eleven more; every other byte is an instruction.
pub proof fn lemma_undefined_opcodes(byte: u8)
    ensures
        spec_decode(byte, false) is None <==> (byte == 0xCB || byte == 0xD3 || byte == 0xDB
            || byte == 0xDD || byte == 0xE3 || byte == 0xE4 || byte == 0xEB || byte == 0xEC
            || byte == 0xED || byte == 0xF4 || byte == 0xFC || byte == 0xFD),
        spec_decode(byte, true) is Some,
{
}

/// The operand of an increment or decrement that bits 3 to 5 of its opcode
/// name.
pub open spec fn spec_step_target(index: u8) -> IncDecTarget {
    match index % 8 {
        0 => IncDecTarget::B,
        1 => IncDecTarget::C,
        2 => IncDecTarget::D,
        3 => IncDecTarget::E,
        4 => IncDecTarget::H,
        5 => IncDecTarget::L,
        6 => IncDecTarget::HLAddr,
        _ => IncDecTarget::A,
    }
}

/// The condition that bits 3 and 4 of a conditional jump's opcode name.
pub open spec fn spec_condition(index: u8) -> JumpTest {
    match index % 4 {
        0 => JumpTest::NotZero,
        1 => JumpTest::Zero,
        2 => JumpTest::NotCarry,
        _ => JumpTest::Carry,
    }
}

/// The restart target whose address is eight times `index`.
pub open spec fn spec_restart_target(index: u8) -> RSTTargets {
    match index % 8 {
        0 => RSTTargets::H00,
        1 => RSTTargets::H08,
        2 => RSTTargets::H10,
        3 => RSTTargets::H18,
        4 => RSTTargets::H20,
        5 => RSTTargets::H28,
        6 => RSTTargets::H30,
        _ => RSTTargets::H38,
    }
}

/// The table follows the patterns of the instruction set: in the first
/// quarter of the opcodes bits 3 to 5 name the byte operand of INC, DEC and
/// the load of an immediate byte, and in the last quarter the operation of
/// an arithmetic instruction on an immediate byte and the target of a
/// restart.
pub proof fn lemma_table_has_byte_patterns(index: u8)
    requires
        index < 8,
    ensures
        spec_decode_table((0x04 + 8 * index) as u8) == Some(
            Instructions::INC(spec_step_target(index)),
        ),
        spec_decode_table((0x05 + 8 * index) as u8) == Some(
            Instructions::DEC(spec_step_target(index)),
        ),
        spec_decode_table((0x06 + 8 * index) as u8) == Some(
            Instructions::LD(LoadType::Byte(spec_load_target(index), LoadByteSource::D8)),
        ),
        spec_decode_table((0xC6 + 8 * index) as u8) == Some(
            spec_arithmetic(index, ArithmeticSource::U8),
        ),
        spec_decode_table((0xC7 + 8 * index) as u8) == Some(
            Instructions::RST(spec_restart_target(index)),
        ),
{
}

/// The table follows the patterns of the instruction set: bits 3 and 4 name
/// the condition of the conditional jumps, calls and returns.
pub proof fn lemma_table_has_condition_patterns(index: u8)
    requires
        index < 4,
    ensures
        spec_decode_table((0x20 + 8 * index) as u8) == Some(
            Instructions::JR(spec_condition(index)),
        ),
        spec_decode_table((0xC0 + 8 * index) as u8) == Some(
            Instructions::RET(spec_condition(index)),
        ),
        spec_decode_table((0xC2 + 8 * index) as u8) == Some(
            Instructions::JP(spec_condition(index)),
        ),
        spec_decode_table((0xC4 + 8 * index) as u8) == Some(
            Instructions::CALL(spec_condition(index)),
        ),
{
}

/// The table follows the patterns of the instruction set: bits 4 and 5 name
/// the register pair of the sixteen-bit instructions, in the order BC, DE,
/// HL and then SP, or AF for the stack.
pub proof fn lemma_table_has_pair_patterns()
    ensures
        spec_decode_table(0x01) == Some(
            Instructions::LD(LoadType::Word(LoadWordTarget::BC, LoadWordSource::D16)),
        ),
        spec_decode_table(0x11) == Some(
            Instructions::LD(LoadType::Word(LoadWordTarget::DE, LoadWordSource::D16)),
        ),
        spec_decode_table(0x21) == Some(
            Instructions::LD(LoadType::Word(LoadWordTarget::HL, LoadWordSource::D16)),
        ),
        spec_decode_table(0x31) == Some(
            Instructions::LD(LoadType::Word(LoadWordTarget::SP, LoadWordSource::D16)),
        ),
        spec_decode_table(0x03) == Some(Instructions::INC(IncDecTarget::BC)),
        spec_decode_table(0x13) == Some(Instructions::INC(IncDecTarget::DE)),
        spec_decode_table(0x23) == Some(Instructions::INC(IncDecTarget::HL)),
        spec_decode_table(0x33) == Some(Instructions::INC(IncDecTarget::SP)),
        spec_decode_table(0x0B) == Some(Instructions::DEC(IncDecTarget::BC)),
        spec_decode_table(0x1B) == Some(Instructions::DEC(IncDecTarget::DE)),
        spec_decode_table(0x2B) == Some(Instructions::DEC(IncDecTarget::HL)),
        spec_decode_table(0x3B) == Some(Instructions::DEC(IncDecTarget::SP)),
        spec_decode_table(0x09) == Some(Instructions::ADD16(Arithmetic16Target::BC)),
        spec_decode_table(0x19) == Some(Instructions::ADD16(Arithmetic16Target::DE)),
        spec_decode_table(0x29) == Some(Instructions::ADD16(Arithmetic16Target::HL)),
        spec_decode_table(0x39) == Some(Instructions::ADD16(Arithmetic16Target::SP)),
        spec_decode_table(0xC5) == Some(Instructions::PUSH(StackTarget::BC)),
        spec_decode_table(0xD5) == Some(Instructions::PUSH(StackTarget::DE)),
        spec_decode_table(0xE5) == Some(Instructions::PUSH(StackTarget::HL)),
        spec_decode_table(0xF5) == Some(Instructions::PUSH(StackTarget::AF)),
        spec_decode_table(0xC1) == Some(Instructions::POP(StackTarget::BC)),
        spec_decode_table(0xD1) == Some(Instructions::POP(StackTarget::DE)),
        spec_decode_table(0xE1) == Some(Instructions::POP(StackTarget::HL)),
        spec_decode_table(0xF1) == Some(Instructions::POP(StackTarget::AF)),
{
}

} // verus!
