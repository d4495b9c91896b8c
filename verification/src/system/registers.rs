//! The eight byte registers and the flag byte.

use vstd::prelude::*;
use vstd::std_specs::convert::FromSpecImpl;

verus! {

/// The four condition flags held in the top nibble of F.
#[derive(Clone, Copy, Debug, PartialEq, Eq)]
pub struct FlagsRegister {
    pub zero: bool,
    pub subtract: bool,
    pub half_carry: bool,
    pub carry: bool,
}

/// The byte registers A, B, C, D, E, H, L and the flags.
#[derive(Clone, Copy, Debug, PartialEq, Eq)]
pub struct Registers {
    pub a: u8,
    pub b: u8,
    pub c: u8,
    pub d: u8,
    pub e: u8,
    pub f: FlagsRegister,
    pub h: u8,
    pub l: u8,
}

/// The value of a pair of byte registers read as one big-endian word.
pub open spec fn spec_pair(high: u8, low: u8) -> u16 {
    (high * 256 + low) as u16
}

/// The high byte of a word.
pub open spec fn spec_high(value: u16) -> u8 {
    (value / 256) as u8
}

/// The low byte of a word.
pub open spec fn spec_low(value: u16) -> u8 {
    (value % 256) as u8
}

/// Joins two bytes into a word, the first one on top.
pub fn pair(high: u8, low: u8) -> (r: u16)
    ensures
        r == spec_pair(high, low),
{
    (high as u16) * 256 + (low as u16)
}

/// The top byte of a word.
pub fn high_byte(value: u16) -> (r: u8)
    ensures
        r == spec_high(value),
{
    (value / 256) as u8
}

/// The bottom byte of a word.
pub fn low_byte(value: u16) -> (r: u8)
    ensures
        r == spec_low(value),
{
    (value % 256) as u8
}

impl FlagsRegister {
    /// F as a byte: Z in bit 7, N in bit 6, H in bit 5, C in bit 4, and
    /// nothing below.
    pub open spec fn spec_to_u8(self) -> u8 {
        ((if self.zero { 0x80int } else { 0 })
            + (if self.subtract { 0x40int } else { 0 })
            + (if self.half_carry { 0x20int } else { 0 })
            + (if self.carry { 0x10int } else { 0 })) as u8
    }

    /// The flags that a byte holds in its top nibble; the low nibble is
    /// dropped.
    pub open spec fn spec_from_u8(byte: u8) -> FlagsRegister {
        FlagsRegister {
            zero: byte / 0x80 % 2 == 1,
            subtract: byte / 0x40 % 2 == 1,
            half_carry: byte / 0x20 % 2 == 1,
            carry: byte / 0x10 % 2 == 1,
        }
    }

    /// The flag byte.
    pub fn to_u8(self) -> (r: u8)
        ensures
            r == self.spec_to_u8(),
            r % 16 == 0,
    {
        let z: u8 = if self.zero { 0x80 } else { 0 };
        let n: u8 = if self.subtract { 0x40 } else { 0 };
        let h: u8 = if self.half_carry { 0x20 } else { 0 };
        let c: u8 = if self.carry { 0x10 } else { 0 };
        z + n + h + c
    }
}

impl From<FlagsRegister> for u8 {
    fn from(flag: FlagsRegister) -> (r: u8) {
        flag.to_u8()
    }
}

impl FromSpecImpl<FlagsRegister> for u8 {
    open spec fn obeys_from_spec() -> bool {
        true
    }

    open spec fn from_spec(flag: FlagsRegister) -> u8 {
        flag.spec_to_u8()
    }
}

impl From<u8> for FlagsRegister {
    fn from(byte: u8) -> (r: FlagsRegister) {
        FlagsRegister {
            zero: byte / 0x80 % 2 == 1,
            subtract: byte / 0x40 % 2 == 1,
            half_carry: byte / 0x20 % 2 == 1,
            carry: byte / 0x10 % 2 == 1,
        }
    }
}

impl FromSpecImpl<u8> for FlagsRegister {
    open spec fn obeys_from_spec() -> bool {
        true
    }

    open spec fn from_spec(byte: u8) -> FlagsRegister {
        FlagsRegister::spec_from_u8(byte)
    }
}

impl Registers {
    pub open spec fn spec_af(self) -> u16 {
        spec_pair(self.a, self.f.spec_to_u8())
    }

    pub open spec fn spec_bc(self) -> u16 {
        spec_pair(self.b, self.c)
    }

    pub open spec fn spec_de(self) -> u16 {
        spec_pair(self.d, self.e)
    }

    pub open spec fn spec_hl(self) -> u16 {
        spec_pair(self.h, self.l)
    }

    pub open spec fn spec_set_af(self, value: u16) -> Registers {
        Registers { a: spec_high(value), f: FlagsRegister::spec_from_u8(spec_low(value)), ..self }
    }

    pub open spec fn spec_set_bc(self, value: u16) -> Registers {
        Registers { b: spec_high(value), c: spec_low(value), ..self }
    }

    pub open spec fn spec_set_de(self, value: u16) -> Registers {
        Registers { d: spec_high(value), e: spec_low(value), ..self }
    }

    pub open spec fn spec_set_hl(self, value: u16) -> Registers {
        Registers { h: spec_high(value), l: spec_low(value), ..self }
    }

    /// All registers zero, all flags clear.
    pub fn new() -> (r: Registers)
        ensures
            r == (Registers {
                a: 0,
                b: 0,
                c: 0,
                d: 0,
                e: 0,
                f: FlagsRegister { zero: false, subtract: false, half_carry: false, carry: false },
                h: 0,
                l: 0,
            }),
    {
        Registers {
            a: 0x00,
            b: 0x00,
            c: 0x00,
            d: 0x00,
            e: 0x00,
            f: FlagsRegister { zero: false, subtract: false, half_carry: false, carry: false },
            h: 0x00,
            l: 0x00,
        }
    }

    pub fn get_af(&self) -> (r: u16)
        ensures
            r == self.spec_af(),
            r % 16 == 0,
    {
        pair(self.a, self.f.to_u8())
    }

    pub fn get_bc(&self) -> (r: u16)
        ensures
            r == self.spec_bc(),
    {
        pair(self.b, self.c)
    }

    pub fn get_de(&self) -> (r: u16)
        ensures
            r == self.spec_de(),
    {
        pair(self.d, self.e)
    }

    pub fn get_hl(&self) -> (r: u16)
        ensures
            r == self.spec_hl(),
    {
        pair(self.h, self.l)
    }

    /// Writes A and F; the low nibble of the value is lost.
    pub fn set_af(&mut self, value: u16)
        ensures
            *final(self) == old(self).spec_set_af(value),
    {
        self.a = high_byte(value);
        self.f = FlagsRegister::from(low_byte(value));
    }

    pub fn set_bc(&mut self, value: u16)
        ensures
            *final(self) == old(self).spec_set_bc(value),
    {
        self.b = high_byte(value);
        self.c = low_byte(value);
    }

    pub fn set_de(&mut self, value: u16)
        ensures
            *final(self) == old(self).spec_set_de(value),
    {
        self.d = high_byte(value);
        self.e = low_byte(value);
    }

    pub fn set_hl(&mut self, value: u16)
        ensures
            *final(self) == old(self).spec_set_hl(value),
    {
        self.h = high_byte(value);
        self.l = low_byte(value);
    }
}

/// The flag byte never has a bit set in its low nibble.
pub proof fn lemma_flags_low_nibble_zero(flags: FlagsRegister)
    ensures
        flags.spec_to_u8() & 0x0F == 0,
        flags.spec_to_u8() % 16 == 0,
{
    let f = flags.spec_to_u8();
    assert(f % 16 == 0);
    assert(f % 16 == 0 ==> f & 0x0F == 0) by (bit_vector);
}

/// Reading AF gives a word whose low nibble is zero, whatever the registers
/// hold.
pub proof fn lemma_af_low_nibble_zero(regs: Registers)
    ensures
        regs.spec_af() & 0x000F == 0,
{
    let w = regs.spec_af();
    assert(w % 16 == 0);
    assert(w % 16 == 0 ==> w & 0x000F == 0) by (bit_vector);
}

/// A byte with a clear low nibble survives the trip through the flags; of
/// any other byte the low nibble is lost.
pub proof fn lemma_flags_round_trip(b: u8)
    ensures
        FlagsRegister::spec_from_u8(b & 0xF0).spec_to_u8() == b & 0xF0,
        FlagsRegister::spec_from_u8(b).spec_to_u8() == b & 0xF0,
        FlagsRegister::spec_from_u8(b).spec_to_u8() == b - b % 16,
{
    lemma_flag_bits(b);
    lemma_flag_bits(b & 0xF0);
    assert((b & 0xF0) & 0xF0 == b & 0xF0) by (bit_vector);
}

/// The four flag bits of a byte add up to the byte without its low nibble.
proof fn lemma_flag_bits(b: u8)
    ensures
        FlagsRegister::spec_from_u8(b).spec_to_u8() == b & 0xF0,
        b & 0xF0 == b - b % 16,
{
    let z: u8 = if b / 0x80 % 2 == 1 { 0x80 } else { 0 };
    let n: u8 = if b / 0x40 % 2 == 1 { 0x40 } else { 0 };
    let h: u8 = if b / 0x20 % 2 == 1 { 0x20 } else { 0 };
    let c: u8 = if b / 0x10 % 2 == 1 { 0x10 } else { 0 };
    assert(z == b & 0x80 && n == b & 0x40 && h == b & 0x20 && c == b & 0x10) by (bit_vector)
        requires
            z == (if b / 0x80 % 2 == 1 { 0x80u8 } else { 0u8 }),
            n == (if b / 0x40 % 2 == 1 { 0x40u8 } else { 0u8 }),
            h == (if b / 0x20 % 2 == 1 { 0x20u8 } else { 0u8 }),
            c == (if b / 0x10 % 2 == 1 { 0x10u8 } else { 0u8 }),
    ;
    assert((b & 0x80) + (b & 0x40) + (b & 0x20) + (b & 0x10) == b & 0xF0 && b & 0xF0 == b - b
        % 16) by (bit_vector);
}

/// What is written to BC, DE or HL is read back unchanged; AF loses its low
/// nibble.
pub proof fn lemma_pair_round_trip(regs: Registers, v: u16)
    ensures
        regs.spec_set_bc(v).spec_bc() == v,
        regs.spec_set_de(v).spec_de() == v,
        regs.spec_set_hl(v).spec_hl() == v,
        regs.spec_set_af(v).spec_af() == v & 0xFFF0,
{
    let low: u8 = spec_low(v);
    lemma_flags_round_trip(low);
    assert(spec_pair(spec_high(v), low) == v);
    assert(regs.spec_set_af(v).spec_af() == spec_pair(spec_high(v), (low - low % 16) as u8));
    assert(v & 0xFFF0 == v - v % 16) by (bit_vector);
    assert(low % 16 == v % 16);
}

/// A register pair is its high byte shifted left by eight over its low
/// byte, and the flag byte has Z, N, H and C in bits 7 to 4.
pub proof fn lemma_pairs_on_bits(high: u8, low: u8, flags: FlagsRegister)
    ensures
        spec_pair(high, low) == ((high as u16) << 8) | (low as u16),
        flags.spec_to_u8() == ((if flags.zero {
            1u8
        } else {
            0u8
        }) << 7) | ((if flags.subtract {
            1u8
        } else {
            0u8
        }) << 6) | ((if flags.half_carry {
            1u8
        } else {
            0u8
        }) << 5) | ((if flags.carry {
            1u8
        } else {
            0u8
        }) << 4),
{
    let h = high as u16;
    let l = low as u16;
    assert((h * 256 + l) as u16 == (h << 8) | l) by (bit_vector)
        requires
            h < 256,
            l < 256,
    ;
    let z: u8 = if flags.zero { 1 } else { 0 };
    let n: u8 = if flags.subtract { 1 } else { 0 };
    let hc: u8 = if flags.half_carry { 1 } else { 0 };
    let c: u8 = if flags.carry { 1 } else { 0 };
    assert((z * 0x80 + n * 0x40 + hc * 0x20 + c * 0x10) as u8 == (z << 7) | (n << 6) | (hc << 5)
        | (c << 4)) by (bit_vector)
        requires
            z <= 1,
            n <= 1,
            hc <= 1,
            c <= 1,
    ;
}

} // verus!
