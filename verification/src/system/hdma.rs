//! The registers of the VRAM transfer unit of the colour machine.

use vstd::prelude::*;

verus! {

/// How a transfer proceeds: all at once, or sixteen bytes in each
/// horizontal blank.
#[derive(Clone, Copy, Debug, PartialEq, Eq)]
pub enum HDMAMode {
    GDMA,
    HDMA,
}

/// Source, destination and what is left of a transfer. `remain` counts the
/// blocks of sixteen bytes still to go, less one.
#[derive(Clone, Copy, Debug, PartialEq, Eq)]
pub struct HDMA {
    pub source: u16,
    pub destination: u16,
    pub active: bool,
    pub mode: HDMAMode,
    pub remain: u8,
}

impl HDMA {
    /// Source and destination are block-aligned, the destination lies in
    /// video RAM, and the block count has seven bits.
    pub open spec fn wf(self) -> bool {
        &&& self.source % 0x10 == 0
        &&& self.destination % 0x10 == 0
        &&& 0x8000 <= self.destination <= 0x9FF0
        &&& self.remain < 0x80
    }

    /// What a read of one of the five registers returns: the halves of
    /// source and destination, and for the last register the block count
    /// with bit 7 set while no transfer is active. Zero at any other address.
    pub open spec fn spec_read(self, address: u16) -> u8 {
        if address == 0xFF51 {
            (self.source / 0x100) as u8
        } else if address == 0xFF52 {
            (self.source % 0x100) as u8
        } else if address == 0xFF53 {
            (self.destination / 0x100) as u8
        } else if address == 0xFF54 {
            (self.destination % 0x100) as u8
        } else if address == 0xFF55 {
            (self.remain % 0x80 + if self.active {
                0x00int
            } else {
                0x80
            }) as u8
        } else {
            0
        }
    }

    /// The unit after a write. The low nibble written to a low half is
    /// dropped; the destination is kept inside video RAM. A write to the last
    /// register starts a transfer of `value % 0x80 + 1` blocks, in the mode
    /// that bit 7 selects; while a blank-by-blank transfer is active it
    /// starts nothing, and with bit 7 clear it stops that transfer.
    pub open spec fn spec_write(self, address: u16, value: u8) -> HDMA {
        if address == 0xFF51 {
            HDMA { source: (value * 0x100 + self.source % 0x100) as u16, ..self }
        } else if address == 0xFF52 {
            HDMA { source: (self.source / 0x100 * 0x100 + value / 0x10 * 0x10) as u16, ..self }
        } else if address == 0xFF53 {
            HDMA {
                destination: (0x8000 + value % 0x20 * 0x100 + self.destination % 0x100) as u16,
                ..self
            }
        } else if address == 0xFF54 {
            HDMA {
                destination: (self.destination / 0x100 * 0x100 + value / 0x10 * 0x10) as u16,
                ..self
            }
        } else if address == 0xFF55 {
            if self.active && self.mode == HDMAMode::HDMA {
                if value < 0x80 {
                    HDMA { active: false, ..self }
                } else {
                    self
                }
            } else {
                HDMA {
                    active: true,
                    remain: value % 0x80,
                    mode: if value >= 0x80 {
                        HDMAMode::HDMA
                    } else {
                        HDMAMode::GDMA
                    },
                    ..self
                }
            }
        } else {
            self
        }
    }

    /// The unit after one block has been copied: source and destination move
    /// on by sixteen bytes, the destination staying inside video RAM, and
    /// the block count goes down by one, from zero to 0x7F.
    pub open spec fn spec_advance(self) -> HDMA {
        HDMA {
            source: ((self.source + 0x10) % 0x1_0000) as u16,
            destination: (0x8000 + (self.destination + 0x10) % 0x2000) as u16,
            remain: if self.remain == 0 {
                0x7F
            } else {
                (self.remain - 1) as u8
            },
            ..self
        }
    }

    /// Tells whether the unit is in order.
    pub fn is_valid(&self) -> (r: bool)
        ensures
            r == self.wf(),
    {
        self.source % 0x10 == 0 && self.destination % 0x10 == 0 && 0x8000 <= self.destination
            && self.destination <= 0x9FF0 && self.remain < 0x80
    }

    pub fn new() -> (r: HDMA)
        ensures
            r == (HDMA {
                source: 0x0000,
                destination: 0x8000,
                active: false,
                mode: HDMAMode::GDMA,
                remain: 0x00,
            }),
            r.wf(),
    {
        HDMA { source: 0x0000, destination: 0x8000, active: false, mode: HDMAMode::GDMA, remain: 0x00 }
    }

    pub fn read_hdma(&self, address: u16) -> (r: u8)
        ensures
            r == self.spec_read(address),
    {
        if address == 0xFF51 {
            (self.source / 0x100) as u8
        } else if address == 0xFF52 {
            (self.source % 0x100) as u8
        } else if address == 0xFF53 {
            (self.destination / 0x100) as u8
        } else if address == 0xFF54 {
            (self.destination % 0x100) as u8
        } else if address == 0xFF55 {
            self.remain % 0x80 + if self.active {
                0x00
            } else {
                0x80
            }
        } else {
            0x00
        }
    }

    pub fn write_hdma(&mut self, address: u16, value: u8)
        requires
            old(self).wf(),
        ensures
            *final(self) == old(self).spec_write(address, value),
            final(self).wf(),
    {
        if address == 0xFF51 {
            self.source = (value as u16) * 0x100 + self.source % 0x100;
        } else if address == 0xFF52 {
            self.source = self.source / 0x100 * 0x100 + (value as u16) / 0x10 * 0x10;
        } else if address == 0xFF53 {
            self.destination = 0x8000 + (value as u16) % 0x20 * 0x100 + self.destination % 0x100;
        } else if address == 0xFF54 {
            self.destination = self.destination / 0x100 * 0x100 + (value as u16) / 0x10 * 0x10;
        } else if address == 0xFF55 {
            let by_blank: bool = match self.mode {
                HDMAMode::HDMA => true,
                HDMAMode::GDMA => false,
            };
            if self.active && by_blank {
                if value < 0x80 {
                    self.active = false;
                }
                return ;
            }
            self.active = true;
            self.remain = value % 0x80;
            self.mode = if value >= 0x80 {
                HDMAMode::HDMA
            } else {
                HDMAMode::GDMA
            };
        }
    }

    /// Moves on to the next block.
    pub fn advance(&mut self)
        requires
            old(self).wf(),
        ensures
            *final(self) == old(self).spec_advance(),
            final(self).wf(),
    {
        self.source = ((self.source as u32 + 0x10) % 0x1_0000) as u16;
        self.destination = 0x8000 + (self.destination - 0x8000 + 0x10) % 0x2000;
        if self.remain == 0 {
            self.remain = 0x7F;
        } else {
            self.remain = self.remain - 1;
        }
    }
}

/// A write of the transfer register while a blank-by-blank transfer is
/// active never starts another one: with bit 7 clear it stops the transfer,
/// with bit 7 set it changes nothing.
pub proof fn lemma_hdma_cancel(unit: HDMA, value: u8)
    requires
        unit.active,
        unit.mode == HDMAMode::HDMA,
    ensures
        value < 0x80 ==> unit.spec_write(0xFF55, value) == (HDMA { active: false, ..unit }),
        value >= 0x80 ==> unit.spec_write(0xFF55, value) == unit,
{
}

} // verus!
