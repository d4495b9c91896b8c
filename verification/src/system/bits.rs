//! Single bits of a byte, in arithmetic.

use vstd::prelude::*;

verus! {

/// Bit `k` of a byte, bit 0 being the lowest.
pub open spec fn spec_bit(byte: u8, k: int) -> bool {
    if k == 0 {
        byte % 2 == 1
    } else if k == 1 {
        byte / 2 % 2 == 1
    } else if k == 2 {
        byte / 4 % 2 == 1
    } else if k == 3 {
        byte / 8 % 2 == 1
    } else if k == 4 {
        byte / 16 % 2 == 1
    } else if k == 5 {
        byte / 32 % 2 == 1
    } else if k == 6 {
        byte / 64 % 2 == 1
    } else if k == 7 {
        byte / 128 % 2 == 1
    } else {
        false
    }
}

pub fn bit(byte: u8, k: u8) -> (r: bool)
    ensures
        r == spec_bit(byte, k as int),
{
    match k {
        0 => byte % 2 == 1,
        1 => byte / 2 % 2 == 1,
        2 => byte / 4 % 2 == 1,
        3 => byte / 8 % 2 == 1,
        4 => byte / 16 % 2 == 1,
        5 => byte / 32 % 2 == 1,
        6 => byte / 64 % 2 == 1,
        7 => byte / 128 % 2 == 1,
        _ => false,
    }
}

/// The value of bit `k`.
pub open spec fn spec_pow2(k: int) -> u8 {
    if k == 0 {
        1
    } else if k == 1 {
        2
    } else if k == 2 {
        4
    } else if k == 3 {
        8
    } else if k == 4 {
        16
    } else if k == 5 {
        32
    } else if k == 6 {
        64
    } else if k == 7 {
        128
    } else {
        0
    }
}

pub fn pow2(k: u8) -> (r: u8)
    ensures
        r == spec_pow2(k as int),
{
    match k {
        0 => 1,
        1 => 2,
        2 => 4,
        3 => 8,
        4 => 16,
        5 => 32,
        6 => 64,
        7 => 128,
        _ => 0,
    }
}

/// The byte with bit `k` set.
pub open spec fn spec_set_bit(byte: u8, k: int) -> u8 {
    if spec_bit(byte, k) {
        byte
    } else {
        (byte + spec_pow2(k)) as u8
    }
}

/// The byte with bit `k` clear.
pub open spec fn spec_clear_bit(byte: u8, k: int) -> u8 {
    if spec_bit(byte, k) {
        (byte - spec_pow2(k)) as u8
    } else {
        byte
    }
}

pub fn set_bit(byte: u8, k: u8) -> (r: u8)
    ensures
        r == spec_set_bit(byte, k as int),
{
    if bit(byte, k) || k >= 8 {
        byte
    } else {
        byte + pow2(k)
    }
}

pub fn clear_bit(byte: u8, k: u8) -> (r: u8)
    ensures
        r == spec_clear_bit(byte, k as int),
{
    if bit(byte, k) {
        byte - pow2(k)
    } else {
        byte
    }
}

/// After a bit is set it reads as set, and after it is cleared as clear.
pub proof fn lemma_set_clear_bit(byte: u8, k: int)
    requires
        0 <= k < 8,
    ensures
        spec_bit(spec_set_bit(byte, k), k),
        !spec_bit(spec_clear_bit(byte, k), k),
{
}

/// The arithmetic reading of a bit is the machine's: bit `k` is set where
/// the byte and the bit's value have a bit in common.
pub proof fn lemma_bit_is_mask(byte: u8, k: int)
    requires
        0 <= k < 8,
    ensures
        spec_bit(byte, k) == (byte & spec_pow2(k) != 0),
{
    assert((byte % 2 == 1) == (byte & 1 != 0)) by (bit_vector);
    assert((byte / 2 % 2 == 1) == (byte & 2 != 0)) by (bit_vector);
    assert((byte / 4 % 2 == 1) == (byte & 4 != 0)) by (bit_vector);
    assert((byte / 8 % 2 == 1) == (byte & 8 != 0)) by (bit_vector);
    assert((byte / 16 % 2 == 1) == (byte & 16 != 0)) by (bit_vector);
    assert((byte / 32 % 2 == 1) == (byte & 32 != 0)) by (bit_vector);
    assert((byte / 64 % 2 == 1) == (byte & 64 != 0)) by (bit_vector);
    assert((byte / 128 % 2 == 1) == (byte & 128 != 0)) by (bit_vector);
}

/// Remainders and quotients by powers of two are masks and shifts: the
/// contracts of this library speak of the former, the machine of the latter.
pub proof fn lemma_masks_are_remainders(v: u8, w: u16)
    ensures
        v % 0x02 == v & 0x01,
        v % 0x04 == v & 0x03,
        v % 0x08 == v & 0x07,
        v % 0x10 == v & 0x0F,
        v % 0x20 == v & 0x1F,
        v % 0x40 == v & 0x3F,
        v % 0x80 == v & 0x7F,
        v / 0x02 == v >> 1,
        v / 0x04 == v >> 2,
        v / 0x08 == v >> 3,
        v / 0x10 == v >> 4,
        v / 0x20 == v >> 5,
        v / 0x40 == v >> 6,
        v / 0x80 == v >> 7,
        v / 0x10 * 0x10 == v & 0xF0,
        w % 0x100 == w & 0x00FF,
        w / 0x100 == w >> 8,
        w / 0x100 * 0x100 == w & 0xFF00,
        w / 0x10 * 0x10 == w & 0xFFF0,
{
    assert(v % 0x02 == v & 0x01 && v % 0x04 == v & 0x03 && v % 0x08 == v & 0x07 && v % 0x10 == v
        & 0x0F && v % 0x20 == v & 0x1F && v % 0x40 == v & 0x3F && v % 0x80 == v & 0x7F)
        by (bit_vector);
    assert(v / 0x02 == v >> 1 && v / 0x04 == v >> 2 && v / 0x08 == v >> 3 && v / 0x10 == v >> 4
        && v / 0x20 == v >> 5 && v / 0x40 == v >> 6 && v / 0x80 == v >> 7 && v / 0x10 * 0x10 == v
        & 0xF0) by (bit_vector);
    assert(w % 0x100 == w & 0x00FF && w / 0x100 == w >> 8 && w / 0x100 * 0x100 == w & 0xFF00 && w
        / 0x10 * 0x10 == w & 0xFFF0) by (bit_vector);
}

} // verus!
