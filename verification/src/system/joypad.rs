//! The key matrix and its select register.

use super::interrupts::{Interrupt, Interrupts};
use vstd::prelude::*;

verus! {

pub const JOYPAD_INPUT: usize = 0xFF00;

/// The eight keys; a clear bit of `matrix` is a key held down. `select` is
/// what was last written to the register.
#[derive(Clone, Copy, Debug, PartialEq, Eq)]
pub struct Joypad {
    pub matrix: u8,
    pub select: u8,
}

#[derive(Clone, Copy, Debug, PartialEq, Eq)]
pub enum Keys {
    Right,
    Left,
    Up,
    Down,
    A,
    B,
    Select,
    Start,
}

impl Keys {
    /// The key's bit in the matrix: directions in the low nibble, buttons in
    /// the high one.
    pub open spec fn spec_mask(self) -> u8 {
        match self {
            Keys::Right => 0x01,
            Keys::Left => 0x02,
            Keys::Up => 0x04,
            Keys::Down => 0x08,
            Keys::A => 0x10,
            Keys::B => 0x20,
            Keys::Select => 0x40,
            Keys::Start => 0x80,
        }
    }

    pub fn mask(self) -> (r: u8)
        ensures
            r == self.spec_mask(),
    {
        match self {
            Keys::Right => 0x01,
            Keys::Left => 0x02,
            Keys::Up => 0x04,
            Keys::Down => 0x08,
            Keys::A => 0x10,
            Keys::B => 0x20,
            Keys::Select => 0x40,
            Keys::Start => 0x80,
        }
    }
}

impl Joypad {
    /// The register as it reads: the select bits as written, and in the low
    /// nibble the directions if bit 4 is clear, else the buttons if bit 5 is
    /// clear.
    pub open spec fn spec_state(self) -> u8 {
        if self.select & 0x10 == 0 {
            self.select | (self.matrix & 0x0F)
        } else if self.select & 0x20 == 0 {
            self.select | (self.matrix >> 4)
        } else {
            self.select
        }
    }

    pub open spec fn spec_key_down(self, key: Keys) -> Joypad {
        Joypad { matrix: self.matrix & !key.spec_mask(), ..self }
    }

    pub open spec fn spec_key_up(self, key: Keys) -> Joypad {
        Joypad { matrix: self.matrix | key.spec_mask(), ..self }
    }

    /// No key held, nothing selected.
    pub fn new() -> (r: Joypad)
        ensures
            r == (Joypad { matrix: 0xFF, select: 0x00 }),
    {
        Joypad { matrix: 0xFF, select: 0x00 }
    }

    pub fn get_joypad_state(&self) -> (r: u8)
        ensures
            r == self.spec_state(),
    {
        if (self.select & 0x10) == 0x00 {
            return self.select | (self.matrix & 0x0F);
        }
        if (self.select & 0x20) == 0x00 {
            return self.select | (self.matrix >> 4);
        }
        self.select
    }

    pub fn set_joypad_state(&mut self, value: u8)
        ensures
            *final(self) == (Joypad { select: value, ..*old(self) }),
    {
        self.select = value;
    }

    /// Marks the key as held and requests the Joypad interrupt.
    pub fn key_down(&mut self, key: Keys, irq: &mut Interrupt)
        ensures
            *final(self) == old(self).spec_key_down(key),
            *final(irq) == old(irq).spec_request(Interrupts::Joypad),
    {
        let mask: u8 = key.mask();
        self.matrix = self.matrix & !mask;
        irq.set_interrupt(Interrupts::Joypad);
    }

    /// Marks the key as released.
    pub fn key_up(&mut self, key: Keys)
        ensures
            *final(self) == old(self).spec_key_up(key),
    {
        let mask: u8 = key.mask();
        self.matrix = self.matrix | mask;
    }
}

/// Releasing a key that was pressed gives back the matrix as it was before,
/// if the key was up then; and a pressed key reads as a clear bit.
pub proof fn lemma_key_down_up(pad: Joypad, key: Keys)
    ensures
        pad.spec_key_down(key).matrix & key.spec_mask() == 0,
        pad.spec_key_up(key).matrix & key.spec_mask() == key.spec_mask(),
        pad.matrix & key.spec_mask() == key.spec_mask() ==> pad.spec_key_down(key).spec_key_up(
            key,
        ) == pad,
{
    let m = pad.matrix;
    let k = key.spec_mask();
    assert((m & !k) & k == 0 && (m | k) & k == k && (m & k == k ==> (m & !k) | k == m))
        by (bit_vector);
}

} // verus!
