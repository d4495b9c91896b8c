//! The VRAM transfers of the colour machine, carried out over the bus.

use super::bus::MemoryBus;
use super::hdma::{HDMAMode, HDMA};
use vstd::prelude::*;

verus! {

/// Timer cycles that the copy of one block takes.
pub const BLOCK_CYCLES: u32 = 32;

impl MemoryBus {
    /// The bus with the first `n` bytes of the current block copied from the
    /// source to video RAM, through the bank selected.
    pub open spec fn spec_copy_upto(self, n: nat) -> MemoryBus
        decreases n,
    {
        if n == 0 {
            self
        } else {
            let before = self.spec_copy_upto((n - 1) as nat);
            MemoryBus {
                gpu: before.gpu.spec_write_vram(
                    (self.hdma.destination + n - 1) as usize,
                    before.spec_read(((self.hdma.source + n - 1) % 0x1_0000) as u16),
                ),
                ..before
            }
        }
    }

    /// The bus after one block of sixteen bytes has been copied and the
    /// transfer unit has moved on.
    pub open spec fn spec_copy_block(self) -> MemoryBus {
        let copied = self.spec_copy_upto(16);
        MemoryBus { hdma: copied.hdma.spec_advance(), ..copied }
    }

    /// The bus after `blocks` blocks have been copied.
    pub open spec fn spec_copy_blocks(self, blocks: nat) -> MemoryBus
        decreases blocks,
    {
        if blocks == 0 {
            self
        } else {
            self.spec_copy_block().spec_copy_blocks((blocks - 1) as nat)
        }
    }

    /// The bus after the transfer unit has had its turn. An active general
    /// transfer copies all its blocks and ends; an active blank-by-blank
    /// transfer copies one block if the pixel pipeline has just entered a
    /// horizontal blank, and ends when that was its last.
    pub open spec fn spec_run_hdma(self) -> MemoryBus {
        if !self.hdma.active {
            self
        } else if self.hdma.mode == HDMAMode::GDMA {
            let done = self.spec_copy_blocks((self.hdma.remain + 1) as nat);
            MemoryBus { hdma: HDMA { active: false, ..done.hdma }, ..done }
        } else if !self.gpu.hblank {
            self
        } else {
            let done = self.spec_copy_block();
            MemoryBus {
                hdma: HDMA { active: done.hdma.remain != 0x7F, ..done.hdma },
                ..done
            }
        }
    }

    /// The timer cycles that the transfer unit's turn takes: 32 for each
    /// block copied.
    pub open spec fn spec_hdma_cycles(self) -> u32 {
        if !self.hdma.active {
            0
        } else if self.hdma.mode == HDMAMode::GDMA {
            ((self.hdma.remain + 1) * BLOCK_CYCLES) as u32
        } else if !self.gpu.hblank {
            0
        } else {
            BLOCK_CYCLES
        }
    }

    /// Copies one block and moves the transfer unit on.
    pub fn copy_block(&mut self)
        requires
            old(self).wf(),
        ensures
            *final(self) == old(self).spec_copy_block(),
            final(self).wf(),
            final(self).hdma == old(self).hdma.spec_advance(),
            final(self).gpu.hblank == old(self).gpu.hblank,
    {
        let source: u16 = self.hdma.source;
        let destination: u16 = self.hdma.destination;
        let mut i: u16 = 0;
        while i < 16
            invariant
                i <= 16,
                self.wf(),
                source == old(self).hdma.source,
                destination == old(self).hdma.destination,
                self.hdma == old(self).hdma,
                self.gpu.hblank == old(self).gpu.hblank,
                *self == old(self).spec_copy_upto(i as nat),
            decreases 16 - i,
        {
            let byte: u8 = self.read_byte(((source as u32 + i as u32) % 0x1_0000) as u16);
            self.gpu.write_vram(destination as usize + i as usize, byte);
            i = i + 1;
        }
        self.hdma.advance();
    }

    /// Gives the transfer unit its turn and tells the timer cycles it took.
    pub fn run_hdma(&mut self) -> (cycles: u32)
        requires
            old(self).wf(),
        ensures
            *final(self) == old(self).spec_run_hdma(),
            cycles == old(self).spec_hdma_cycles(),
            cycles <= 0x80 * BLOCK_CYCLES,
            final(self).wf(),
    {
        if !self.hdma.active {
            return 0;
        }
        match self.hdma.mode {
            HDMAMode::GDMA => {
                let length: u32 = self.hdma.remain as u32 + 1;
                let mut done: u32 = 0;
                while done < length
                    invariant
                        done <= length,
                        length == old(self).hdma.remain + 1,
                        self.wf(),
                        old(self).spec_copy_blocks(length as nat) == self.spec_copy_blocks(
                            (length - done) as nat,
                        ),
                    decreases length - done,
                {
                    self.copy_block();
                    done = done + 1;
                }
                self.hdma.active = false;
                length * BLOCK_CYCLES
            },
            HDMAMode::HDMA => {
                if !self.gpu.hblank {
                    return 0;
                }
                self.copy_block();
                if self.hdma.remain == 0x7F {
                    self.hdma.active = false;
                }
                BLOCK_CYCLES
            },
        }
    }
}

} // verus!
