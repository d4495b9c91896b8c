//! What the arithmetic unit computes: results and flags as functions of the
//! operands.

use super::bits::{bit, spec_bit};
use super::registers::FlagsRegister;
use vstd::prelude::*;

verus! {

/// The sum of two bytes, cut to eight bits. H is the carry out of bit 3, C
/// the carry out of bit 7.
#[verifier::opaque]
pub open spec fn spec_add(a: u8, b: u8) -> (u8, FlagsRegister) {
    let r = ((a + b) % 256) as u8;
    (
        r,
        FlagsRegister {
            zero: r == 0,
            subtract: false,
            half_carry: a % 16 + b % 16 > 0xF,
            carry: a + b > 0xFF,
        },
    )
}

/// The sum of two bytes and the carry.
#[verifier::opaque]
pub open spec fn spec_adc(a: u8, b: u8, carry: bool) -> (u8, FlagsRegister) {
    let c: int = if carry {
        1
    } else {
        0
    };
    let r = ((a + b + c) % 256) as u8;
    (
        r,
        FlagsRegister {
            zero: r == 0,
            subtract: false,
            half_carry: a % 16 + b % 16 + c > 0xF,
            carry: a + b + c > 0xFF,
        },
    )
}

/// The difference of two bytes, cut to eight bits. H is the borrow into bit
/// 4, C the borrow into bit 8.
#[verifier::opaque]
pub open spec fn spec_sub(a: u8, b: u8) -> (u8, FlagsRegister) {
    let r = ((a - b) % 256) as u8;
    (r, FlagsRegister { zero: r == 0, subtract: true, half_carry: a % 16 < b % 16, carry: a < b })
}

/// The difference of two bytes less the carry.
#[verifier::opaque]
pub open spec fn spec_sbc(a: u8, b: u8, carry: bool) -> (u8, FlagsRegister) {
    let c: int = if carry {
        1
    } else {
        0
    };
    let r = ((a - b - c) % 256) as u8;
    (
        r,
        FlagsRegister {
            zero: r == 0,
            subtract: true,
            half_carry: a % 16 < b % 16 + c,
            carry: a < b + c,
        },
    )
}

#[verifier::opaque]
pub open spec fn spec_and(a: u8, b: u8) -> (u8, FlagsRegister) {
    (a & b, FlagsRegister { zero: a & b == 0, subtract: false, half_carry: true, carry: false })
}

#[verifier::opaque]
pub open spec fn spec_or(a: u8, b: u8) -> (u8, FlagsRegister) {
    (a | b, FlagsRegister { zero: a | b == 0, subtract: false, half_carry: false, carry: false })
}

#[verifier::opaque]
pub open spec fn spec_xor(a: u8, b: u8) -> (u8, FlagsRegister) {
    (a ^ b, FlagsRegister { zero: a ^ b == 0, subtract: false, half_carry: false, carry: false })
}

/// A byte and the flags after an increment; C is kept.
#[verifier::opaque]
pub open spec fn spec_inc(value: u8, flags: FlagsRegister) -> (u8, FlagsRegister) {
    let r = ((value + 1) % 256) as u8;
    (
        r,
        FlagsRegister { zero: r == 0, subtract: false, half_carry: value % 16 == 0xF, ..flags },
    )
}

/// A byte and the flags after a decrement; C is kept.
#[verifier::opaque]
pub open spec fn spec_dec(value: u8, flags: FlagsRegister) -> (u8, FlagsRegister) {
    let r = ((value - 1) % 256) as u8;
    (r, FlagsRegister { zero: r == 0, subtract: true, half_carry: value % 16 == 0, ..flags })
}

/// The sum of two words, cut to sixteen bits. H is the carry out of bit 11,
/// C the carry out of bit 15; Z is kept.
#[verifier::opaque]
pub open spec fn spec_add16(a: u16, b: u16, flags: FlagsRegister) -> (u16, FlagsRegister) {
    (
        ((a + b) % 0x1_0000) as u16,
        FlagsRegister {
            subtract: false,
            half_carry: a % 0x1000 + b % 0x1000 > 0x0FFF,
            carry: a + b > 0xFFFF,
            ..flags
        },
    )
}

/// A byte read as a signed number.
pub open spec fn spec_signed(byte: u8) -> int {
    if byte < 0x80 {
        byte as int
    } else {
        byte - 0x100
    }
}

/// A word moved by a signed byte, round the sixteen bits.
pub open spec fn spec_offset(base: u16, byte: u8) -> u16 {
    ((base + spec_signed(byte)) % 0x1_0000) as u16
}

/// The stack pointer moved by a signed byte. The byte counts as signed for
/// the sum and as unsigned for the flags: H is the carry out of bit 3, C the
/// carry out of bit 7.
#[verifier::opaque]
pub open spec fn spec_add_sp(sp: u16, byte: u8) -> (u16, FlagsRegister) {
    (
        spec_offset(sp, byte),
        FlagsRegister {
            zero: false,
            subtract: false,
            half_carry: sp % 16 + byte % 16 > 0xF,
            carry: sp % 256 + byte > 0xFF,
        },
    )
}

/// A after the decimal adjustment, with the flags. After an addition 0x60 is
/// added if C is set or A is above 0x99, which sets C, and 0x06 if H is set
/// or the low nibble is above 9. After a subtraction 0x60 is taken off if C
/// is set and 0x06 if H is set, and C is kept. H is cleared.
#[verifier::opaque]
pub open spec fn spec_daa(a: u8, flags: FlagsRegister) -> (u8, FlagsRegister) {
    let high: int = if flags.subtract {
        if flags.carry {
            -0x60
        } else {
            0
        }
    } else if flags.carry || a > 0x99 {
        0x60
    } else {
        0
    };
    let low: int = if flags.subtract {
        if flags.half_carry {
            -0x06
        } else {
            0
        }
    } else if flags.half_carry || a % 16 > 9 {
        0x06
    } else {
        0
    };
    let r = ((a + high + low) % 256) as u8;
    (
        r,
        FlagsRegister {
            zero: r == 0,
            subtract: flags.subtract,
            half_carry: false,
            carry: if flags.subtract {
                flags.carry
            } else {
                flags.carry || a > 0x99
            },
        },
    )
}

/// The flags after a rotate or shift that gave `r` and pushed out `carry`.
pub open spec fn spec_shift_flags(r: u8, carry: bool) -> FlagsRegister {
    FlagsRegister { zero: r == 0, subtract: false, half_carry: false, carry: carry }
}

/// A byte turned left by one bit; bit 7 goes to bit 0 and to C.
#[verifier::opaque]
pub open spec fn spec_rlc(value: u8) -> (u8, FlagsRegister) {
    let r = (value * 2 % 256 + value / 128) as u8;
    (r, spec_shift_flags(r, value >= 0x80))
}

/// A byte turned right by one bit; bit 0 goes to bit 7 and to C.
#[verifier::opaque]
pub open spec fn spec_rrc(value: u8) -> (u8, FlagsRegister) {
    let r = (value / 2 + value % 2 * 128) as u8;
    (r, spec_shift_flags(r, value % 2 == 1))
}

/// A byte turned left through the carry: C goes to bit 0, bit 7 to C.
#[verifier::opaque]
pub open spec fn spec_rl(value: u8, carry: bool) -> (u8, FlagsRegister) {
    let r = (value * 2 % 256 + if carry {
        1int
    } else {
        0
    }) as u8;
    (r, spec_shift_flags(r, value >= 0x80))
}

/// A byte turned right through the carry: C goes to bit 7, bit 0 to C.
#[verifier::opaque]
pub open spec fn spec_rr(value: u8, carry: bool) -> (u8, FlagsRegister) {
    let r = (value / 2 + if carry {
        128int
    } else {
        0
    }) as u8;
    (r, spec_shift_flags(r, value % 2 == 1))
}

/// A byte shifted left; bit 7 goes to C.
#[verifier::opaque]
pub open spec fn spec_sla(value: u8) -> (u8, FlagsRegister) {
    let r = (value * 2 % 256) as u8;
    (r, spec_shift_flags(r, value >= 0x80))
}

/// A byte shifted right with bit 7 kept; bit 0 goes to C.
#[verifier::opaque]
pub open spec fn spec_sra(value: u8) -> (u8, FlagsRegister) {
    let r = (value / 2 + value / 128 * 128) as u8;
    (r, spec_shift_flags(r, value % 2 == 1))
}

/// A byte shifted right; bit 0 goes to C.
#[verifier::opaque]
pub open spec fn spec_srl(value: u8) -> (u8, FlagsRegister) {
    let r = (value / 2) as u8;
    (r, spec_shift_flags(r, value % 2 == 1))
}

/// A byte with its nibbles exchanged.
#[verifier::opaque]
pub open spec fn spec_swap(value: u8) -> (u8, FlagsRegister) {
    let r = (value % 16 * 16 + value / 16) as u8;
    (r, spec_shift_flags(r, false))
}

/// The flags after a test of bit `k`: Z is set where the bit is clear; C is
/// kept.
#[verifier::opaque]
pub open spec fn spec_bit_test(value: u8, k: u8, flags: FlagsRegister) -> FlagsRegister {
    FlagsRegister { zero: !spec_bit(value, k as int), subtract: false, half_carry: true, ..flags }
}

pub fn add(a: u8, b: u8) -> (r: (u8, FlagsRegister))
    ensures
        r == spec_add(a, b),
{
    reveal(spec_add);
    let sum: u16 = a as u16 + b as u16;
    let r: u8 = (sum % 256) as u8;
    (
        r,
        FlagsRegister {
            zero: r == 0,
            subtract: false,
            half_carry: a % 16 + b % 16 > 0xF,
            carry: sum > 0xFF,
        },
    )
}

pub fn adc(a: u8, b: u8, carry: bool) -> (r: (u8, FlagsRegister))
    ensures
        r == spec_adc(a, b, carry),
{
    reveal(spec_adc);
    let c: u16 = if carry {
        1
    } else {
        0
    };
    let sum: u16 = a as u16 + b as u16 + c;
    let r: u8 = (sum % 256) as u8;
    (
        r,
        FlagsRegister {
            zero: r == 0,
            subtract: false,
            half_carry: (a % 16) as u16 + (b % 16) as u16 + c > 0xF,
            carry: sum > 0xFF,
        },
    )
}

pub fn sub(a: u8, b: u8) -> (r: (u8, FlagsRegister))
    ensures
        r == spec_sub(a, b),
{
    reveal(spec_sub);
    let r: u8 = if a >= b {
        a - b
    } else {
        (a as u16 + 256 - b as u16) as u8
    };
    (r, FlagsRegister { zero: r == 0, subtract: true, half_carry: a % 16 < b % 16, carry: a < b })
}

pub fn sbc(a: u8, b: u8, carry: bool) -> (r: (u8, FlagsRegister))
    ensures
        r == spec_sbc(a, b, carry),
{
    reveal(spec_sbc);
    let c: u16 = if carry {
        1
    } else {
        0
    };
    let take: u16 = b as u16 + c;
    let r: u8 = if a as u16 >= take {
        (a as u16 - take) as u8
    } else {
        (a as u16 + 256 - take) as u8
    };
    (
        r,
        FlagsRegister {
            zero: r == 0,
            subtract: true,
            half_carry: ((a % 16) as u16) < (b % 16) as u16 + c,
            carry: (a as u16) < take,
        },
    )
}

pub fn and(a: u8, b: u8) -> (r: (u8, FlagsRegister))
    ensures
        r == spec_and(a, b),
{
    reveal(spec_and);
    let v: u8 = a & b;
    (v, FlagsRegister { zero: v == 0, subtract: false, half_carry: true, carry: false })
}

pub fn or(a: u8, b: u8) -> (r: (u8, FlagsRegister))
    ensures
        r == spec_or(a, b),
{
    reveal(spec_or);
    let v: u8 = a | b;
    (v, FlagsRegister { zero: v == 0, subtract: false, half_carry: false, carry: false })
}

pub fn xor(a: u8, b: u8) -> (r: (u8, FlagsRegister))
    ensures
        r == spec_xor(a, b),
{
    reveal(spec_xor);
    let v: u8 = a ^ b;
    (v, FlagsRegister { zero: v == 0, subtract: false, half_carry: false, carry: false })
}

pub fn inc(value: u8, flags: FlagsRegister) -> (r: (u8, FlagsRegister))
    ensures
        r == spec_inc(value, flags),
{
    reveal(spec_inc);
    let v: u8 = if value == 0xFF {
        0
    } else {
        value + 1
    };
    (
        v,
        FlagsRegister {
            zero: v == 0,
            subtract: false,
            half_carry: value % 16 == 0xF,
            carry: flags.carry,
        },
    )
}

pub fn dec(value: u8, flags: FlagsRegister) -> (r: (u8, FlagsRegister))
    ensures
        r == spec_dec(value, flags),
{
    reveal(spec_dec);
    let v: u8 = if value == 0 {
        0xFF
    } else {
        value - 1
    };
    (
        v,
        FlagsRegister {
            zero: v == 0,
            subtract: true,
            half_carry: value % 16 == 0,
            carry: flags.carry,
        },
    )
}

pub fn add16(a: u16, b: u16, flags: FlagsRegister) -> (r: (u16, FlagsRegister))
    ensures
        r == spec_add16(a, b, flags),
{
    reveal(spec_add16);
    let sum: u32 = a as u32 + b as u32;
    (
        (sum % 0x1_0000) as u16,
        FlagsRegister {
            zero: flags.zero,
            subtract: false,
            half_carry: a % 0x1000 + b % 0x1000 > 0x0FFF,
            carry: sum > 0xFFFF,
        },
    )
}

/// Moves a word by a signed byte.
pub fn offset(base: u16, byte: u8) -> (r: u16)
    ensures
        r == spec_offset(base, byte),
{
    if byte < 0x80 {
        ((base as u32 + byte as u32) % 0x1_0000) as u16
    } else {
        ((base as u32 + 0x1_0000 + byte as u32 - 0x100) % 0x1_0000) as u16
    }
}

pub fn add_sp(sp: u16, byte: u8) -> (r: (u16, FlagsRegister))
    ensures
        r == spec_add_sp(sp, byte),
{
    reveal(spec_add_sp);
    (
        offset(sp, byte),
        FlagsRegister {
            zero: false,
            subtract: false,
            half_carry: sp % 16 + (byte % 16) as u16 > 0xF,
            carry: sp % 256 + byte as u16 > 0xFF,
        },
    )
}

pub fn daa(a: u8, flags: FlagsRegister) -> (r: (u8, FlagsRegister))
    ensures
        r == spec_daa(a, flags),
{
    reveal(spec_daa);
    let mut value: u16 = a as u16 + 0x100;
    let mut carry: bool = flags.carry;
    if !flags.subtract {
        if flags.carry || a > 0x99 {
            value = value + 0x60;
            carry = true;
        }
        if flags.half_carry || a % 16 > 9 {
            value = value + 0x06;
        }
    } else {
        if flags.carry {
            value = value - 0x60;
        }
        if flags.half_carry {
            value = value - 0x06;
        }
    }
    let v: u8 = (value % 256) as u8;
    (v, FlagsRegister { zero: v == 0, subtract: flags.subtract, half_carry: false, carry })
}

pub fn rlc(value: u8) -> (r: (u8, FlagsRegister))
    ensures
        r == spec_rlc(value),
{
    reveal(spec_rlc);
    let v: u8 = ((value as u16 * 2) % 256) as u8 + value / 128;
    (v, FlagsRegister { zero: v == 0, subtract: false, half_carry: false, carry: value >= 0x80 })
}

pub fn rrc(value: u8) -> (r: (u8, FlagsRegister))
    ensures
        r == spec_rrc(value),
{
    reveal(spec_rrc);
    let v: u8 = value / 2 + value % 2 * 128;
    (v, FlagsRegister { zero: v == 0, subtract: false, half_carry: false, carry: value % 2 == 1 })
}

pub fn rl(value: u8, carry: bool) -> (r: (u8, FlagsRegister))
    ensures
        r == spec_rl(value, carry),
{
    reveal(spec_rl);
    let c: u8 = if carry {
        1
    } else {
        0
    };
    let v: u8 = ((value as u16 * 2) % 256) as u8 + c;
    (v, FlagsRegister { zero: v == 0, subtract: false, half_carry: false, carry: value >= 0x80 })
}

pub fn rr(value: u8, carry: bool) -> (r: (u8, FlagsRegister))
    ensures
        r == spec_rr(value, carry),
{
    reveal(spec_rr);
    let c: u8 = if carry {
        128
    } else {
        0
    };
    let v: u8 = value / 2 + c;
    (v, FlagsRegister { zero: v == 0, subtract: false, half_carry: false, carry: value % 2 == 1 })
}

pub fn sla(value: u8) -> (r: (u8, FlagsRegister))
    ensures
        r == spec_sla(value),
{
    reveal(spec_sla);
    let v: u8 = ((value as u16 * 2) % 256) as u8;
    (v, FlagsRegister { zero: v == 0, subtract: false, half_carry: false, carry: value >= 0x80 })
}

pub fn sra(value: u8) -> (r: (u8, FlagsRegister))
    ensures
        r == spec_sra(value),
{
    reveal(spec_sra);
    let v: u8 = value / 2 + value / 128 * 128;
    (v, FlagsRegister { zero: v == 0, subtract: false, half_carry: false, carry: value % 2 == 1 })
}

pub fn srl(value: u8) -> (r: (u8, FlagsRegister))
    ensures
        r == spec_srl(value),
{
    reveal(spec_srl);
    let v: u8 = value / 2;
    (v, FlagsRegister { zero: v == 0, subtract: false, half_carry: false, carry: value % 2 == 1 })
}

pub fn swap(value: u8) -> (r: (u8, FlagsRegister))
    ensures
        r == spec_swap(value),
{
    reveal(spec_swap);
    let v: u8 = value % 16 * 16 + value / 16;
    (v, FlagsRegister { zero: v == 0, subtract: false, half_carry: false, carry: false })
}

pub fn bit_test(value: u8, k: u8, flags: FlagsRegister) -> (r: FlagsRegister)
    ensures
        r == spec_bit_test(value, k, flags),
{
    reveal(spec_bit_test);
    FlagsRegister { zero: !bit(value, k), subtract: false, half_carry: true, carry: flags.carry }
}

/// The arithmetic statements of the flags are the usual ones on bits: the
/// half carry of a sum or a difference of bytes is taken from the low
/// nibbles, with the carry counted in where there is one, and the results
/// wrap as the machine's do.
pub proof fn lemma_byte_flags_on_bits(a: u8, b: u8, carry: bool, flags: FlagsRegister)
    ensures
        spec_add(a, b).1.half_carry == ((a & 0xF) + (b & 0xF) > 0xF),
        spec_add(a, b).1.carry == (a + b > 0xFF),
        spec_add(a, b).0 == a.wrapping_add(b),
        spec_adc(a, b, carry).1.half_carry == ((a & 0xF) + (b & 0xF) + (if carry {
            1int
        } else {
            0
        }) > 0xF),
        spec_sub(a, b).1.half_carry == ((a & 0xF) < (b & 0xF)),
        spec_sub(a, b).1.carry == (a < b),
        spec_sub(a, b).0 == a.wrapping_sub(b),
        spec_sbc(a, b, carry).1.half_carry == ((a & 0xF) < (b & 0xF) + (if carry {
            1int
        } else {
            0
        })),
        spec_inc(a, flags).1.half_carry == ((a & 0xF) == 0xF),
        spec_inc(a, flags).1.carry == flags.carry,
        spec_dec(a, flags).1.half_carry == ((a & 0xF) == 0),
        spec_dec(a, flags).1.carry == flags.carry,
{
    reveal(spec_add);
    reveal(spec_adc);
    reveal(spec_sub);
    reveal(spec_sbc);
    reveal(spec_inc);
    reveal(spec_dec);
    assert(a & 0xF == a % 16) by (bit_vector);
    assert(b & 0xF == b % 16) by (bit_vector);
}

/// The flags of the sixteen-bit additions on bits: adding to HL carries out
/// of bits 11 and 15 and keeps Z; adding a signed byte to the stack pointer
/// carries out of bits 3 and 7 of the unsigned sum and clears Z.
pub proof fn lemma_word_flags_on_bits(x: u16, y: u16, byte: u8, flags: FlagsRegister)
    ensures
        spec_add16(x, y, flags).1.half_carry == ((x & 0x0FFF) + (y & 0x0FFF) > 0x0FFF),
        spec_add16(x, y, flags).1.carry == (x + y > 0xFFFF),
        spec_add16(x, y, flags).1.zero == flags.zero,
        !spec_add16(x, y, flags).1.subtract,
        spec_add16(x, y, flags).0 == x.wrapping_add(y),
        spec_add_sp(x, byte).1.half_carry == ((x & 0xF) + (byte & 0xF) > 0xF),
        spec_add_sp(x, byte).1.carry == ((x & 0xFF) + byte > 0xFF),
        !spec_add_sp(x, byte).1.zero && !spec_add_sp(x, byte).1.subtract,
{
    reveal(spec_add16);
    reveal(spec_add_sp);
    assert(x & 0x0FFF == x % 0x1000) by (bit_vector);
    assert(y & 0x0FFF == y % 0x1000) by (bit_vector);
    assert(x & 0xF == x % 16) by (bit_vector);
    assert(x & 0xFF == x % 256) by (bit_vector);
    assert(byte & 0xF == byte % 16) by (bit_vector);
}

/// The rotates, shifts and the swap, stated in arithmetic, are the
/// machine's operations on bits.
pub proof fn lemma_shifts_on_bits(v: u8)
    ensures
        spec_rlc(v).0 == (v << 1) | (v >> 7),
        spec_rrc(v).0 == (v >> 1) | (v << 7),
        spec_rl(v, false).0 == v << 1 && spec_rl(v, true).0 == (v << 1) | 0x01,
        spec_rr(v, false).0 == v >> 1 && spec_rr(v, true).0 == (v >> 1) | 0x80,
        spec_sla(v).0 == v << 1,
        spec_sra(v).0 == (v >> 1) | (v & 0x80),
        spec_srl(v).0 == v >> 1,
        spec_swap(v).0 == (v << 4) | (v >> 4),
        spec_rlc(v).1.carry == (v & 0x80 != 0),
        spec_rrc(v).1.carry == (v & 0x01 != 0),
{
    reveal(spec_rlc);
    reveal(spec_rrc);
    reveal(spec_rl);
    reveal(spec_rr);
    reveal(spec_sla);
    reveal(spec_sra);
    reveal(spec_srl);
    reveal(spec_swap);
    assert((v * 2 % 256 + v / 128) as u8 == (v << 1) | (v >> 7) && (v / 2 + v % 2 * 128) as u8 == (v
        >> 1) | (v << 7) && (v * 2 % 256) as u8 == v << 1 && (v * 2 % 256 + 1) as u8 == (v << 1)
        | 0x01 && (v / 2) as u8 == v >> 1 && (v / 2 + 128) as u8 == (v >> 1) | 0x80 && (v / 2 + v
        / 128 * 128) as u8 == (v >> 1) | (v & 0x80) && (v % 16 * 16 + v / 16) as u8 == (v << 4)
        | (v >> 4) && (v >= 0x80) == (v & 0x80 != 0) && (v % 2 == 1) == (v & 0x01 != 0))
        by (bit_vector);
}

} // verus!
