//! The sound registers. They keep what is written; no sound is made.

use vstd::array::spec_array_update;
use vstd::prelude::*;

verus! {

pub const SOUND_BEGIN: usize = 0xFF10;

pub const SOUND_END: usize = 0xFF3F;

#[derive(Clone, Copy, Debug, PartialEq, Eq)]
pub struct APU {
    pub sound_data: [u8; 0x30],
}

impl APU {
    /// The byte kept for `address`, zero outside the sound range.
    pub open spec fn spec_read(self, address: usize) -> u8 {
        if SOUND_BEGIN <= address <= SOUND_END {
            self.sound_data[address - SOUND_BEGIN]
        } else {
            0
        }
    }

    /// The registers after a write; outside the sound range nothing changes.
    pub open spec fn spec_write(self, address: usize, value: u8) -> APU {
        if SOUND_BEGIN <= address <= SOUND_END {
            APU { sound_data: spec_array_update(self.sound_data, address - SOUND_BEGIN, value) }
        } else {
            self
        }
    }

    pub fn new() -> (r: APU)
        ensures
            forall|a: usize| r.spec_read(a) == 0,
    {
        APU { sound_data: [0u8; 0x30] }
    }

    pub fn read_byte(&self, address: usize) -> (r: u8)
        ensures
            r == self.spec_read(address),
    {
        if SOUND_BEGIN <= address && address <= SOUND_END {
            self.sound_data[address - SOUND_BEGIN]
        } else {
            0x00
        }
    }

    pub fn write_byte(&mut self, address: usize, value: u8)
        ensures
            *final(self) == old(self).spec_write(address, value),
    {
        if SOUND_BEGIN <= address && address <= SOUND_END {
            self.sound_data[address - SOUND_BEGIN] = value;
            assert(self.sound_data =~= spec_array_update(
                old(self).sound_data,
                address - SOUND_BEGIN,
                value,
            ));
        }
    }
}

/// A sound register reads back what was last written to it, and a write
/// leaves every other register as it was.
pub proof fn lemma_sound_round_trip(apu: APU, address: usize, value: u8, other: usize)
    requires
        SOUND_BEGIN <= address <= SOUND_END,
    ensures
        apu.spec_write(address, value).spec_read(address) == value,
        other != address ==> apu.spec_write(address, value).spec_read(other) == apu.spec_read(
            other,
        ),
{
    broadcast use vstd::array::group_array_axioms;

}

} // verus!
