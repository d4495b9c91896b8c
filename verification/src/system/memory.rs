//! Work RAM, high RAM and the cartridge.

use super::cartridge::Cartridge;
use super::error::EmulatorError;
use vstd::array::spec_array_update;
use vstd::prelude::*;

verus! {

pub const ERAM_BEGIN: usize = 0xA000;

pub const ERAM_END: usize = 0xBFFF;

pub const WRAM_BEGIN: usize = 0xC000;

/// The last address of the echo of work RAM.
pub const ECHO_END: usize = 0xFDFF;

pub const HRAM_BEGIN: usize = 0xFF80;

pub const HRAM_END: usize = 0xFFFE;

/// Eight banks of work RAM of 4 KiB each, 127 bytes of high RAM, and the
/// cartridge. `wram_bank` is the bank seen at 0xD000.
pub struct MMU {
    pub wram: Box<[u8; 0x8000]>,
    pub hram: [u8; 0x80],
    pub cartridge: Cartridge,
    pub wram_bank: usize,
}

impl MMU {
    /// The switchable bank is one of banks 1 to 7, and the cartridge is in
    /// order.
    pub open spec fn wf(self) -> bool {
        &&& 1 <= self.wram_bank <= 7
        &&& self.cartridge.wf()
    }

    /// The place in work RAM that an address between 0xC000 and 0xFDFF
    /// stands for. The first 4 KiB are bank 0, the next 4 KiB the bank
    /// selected, and above 0xE000 the same again.
    pub open spec fn spec_work_index(self, address: usize) -> int {
        let offset = (address - WRAM_BEGIN) % 0x2000;
        if offset < 0x1000 {
            offset
        } else {
            offset - 0x1000 + 0x1000 * self.wram_bank
        }
    }

    /// What a read of work RAM or its echo returns.
    pub open spec fn spec_read_work(self, address: usize) -> u8 {
        self.wram[self.spec_work_index(address)]
    }

    /// The memory after a write to work RAM or its echo.
    pub open spec fn spec_write_work(self, address: usize, value: u8) -> MMU {
        MMU {
            wram: Box::new(spec_array_update(*self.wram, self.spec_work_index(address), value)),
            ..self
        }
    }

    /// What a read of high RAM returns.
    pub open spec fn spec_read_high(self, address: usize) -> u8 {
        self.hram[address - HRAM_BEGIN]
    }

    /// The memory after a write to high RAM.
    pub open spec fn spec_write_high(self, address: usize, value: u8) -> MMU {
        MMU { hram: spec_array_update(self.hram, address - HRAM_BEGIN, value), ..self }
    }

    /// The memory after a write to the work RAM bank register: the low three
    /// bits select the bank, zero standing for one.
    pub open spec fn spec_select_bank(self, value: u8) -> MMU {
        MMU {
            wram_bank: if value % 8 == 0 {
                1
            } else {
                (value % 8) as usize
            },
            ..self
        }
    }

    /// Tells whether the memory is in order.
    pub fn is_valid(&self) -> (r: bool)
        ensures
            r == self.wf(),
    {
        1 <= self.wram_bank && self.wram_bank <= 7 && self.cartridge.is_valid()
    }

    /// Whether the memory is empty round a cartridge as made from the image,
    /// with bank 1 selected.
    pub open spec fn spec_fresh(self, rom: Seq<u8>) -> bool {
        &&& self.wram_bank == 1
        &&& self.cartridge.spec_fresh(rom)
        &&& forall|i: int| 0 <= i < 0x8000 ==> self.wram[i] == 0
        &&& forall|i: int| 0 <= i < 0x80 ==> self.hram[i] == 0
    }

    /// Empty memory round a cartridge made from the image. The image is
    /// refused as the cartridge refuses it.
    pub fn new(rom: Vec<u8>) -> (r: Result<MMU, EmulatorError>)
        ensures
            r is Err <==> !super::cartridge::spec_image_accepted(rom@),
            r is Err ==> r->Err_0 == EmulatorError::InvalidHeader,
            r is Ok ==> r->Ok_0.spec_fresh(rom@) && r->Ok_0.wf(),
    {
        match Cartridge::new(rom) {
            Ok(cartridge) => Ok(
                MMU { wram: Box::new([0u8; 0x8000]), hram: [0u8; 0x80], wram_bank: 0x01, cartridge },
            ),
            Err(e) => Err(e),
        }
    }

    pub fn read_work(&self, address: usize) -> (r: u8)
        requires
            self.wf(),
            WRAM_BEGIN <= address <= ECHO_END,
        ensures
            r == self.spec_read_work(address),
    {
        let offset: usize = (address - WRAM_BEGIN) % 0x2000;
        if offset < 0x1000 {
            self.wram[offset]
        } else {
            self.wram[offset - 0x1000 + 0x1000 * self.wram_bank]
        }
    }

    pub fn write_work(&mut self, address: usize, value: u8)
        requires
            old(self).wf(),
            WRAM_BEGIN <= address <= ECHO_END,
        ensures
            *final(self) == old(self).spec_write_work(address, value),
            final(self).wf(),
    {
        let offset: usize = (address - WRAM_BEGIN) % 0x2000;
        let index: usize = if offset < 0x1000 {
            offset
        } else {
            offset - 0x1000 + 0x1000 * self.wram_bank
        };
        self.wram[index] = value;
        assert(*self.wram =~= spec_array_update(*old(self).wram, index as int, value));
    }

    pub fn read_high(&self, address: usize) -> (r: u8)
        requires
            HRAM_BEGIN <= address <= HRAM_END,
        ensures
            r == self.spec_read_high(address),
    {
        self.hram[address - HRAM_BEGIN]
    }

    pub fn write_high(&mut self, address: usize, value: u8)
        requires
            HRAM_BEGIN <= address <= HRAM_END,
        ensures
            *final(self) == old(self).spec_write_high(address, value),
            old(self).wf() ==> final(self).wf(),
    {
        self.hram[address - HRAM_BEGIN] = value;
        assert(self.hram =~= spec_array_update(old(self).hram, address - HRAM_BEGIN, value));
    }

    pub fn select_bank(&mut self, value: u8)
        ensures
            *final(self) == old(self).spec_select_bank(value),
            old(self).cartridge.wf() ==> final(self).wf(),
    {
        self.wram_bank = if value % 8 == 0 {
            1
        } else {
            (value % 8) as usize
        };
    }
}

/// Work RAM reads back what was written, at the address written and at its
/// echo 0x2000 above.
pub proof fn lemma_work_round_trip(memory: MMU, address: usize, value: u8)
    requires
        memory.wf(),
        WRAM_BEGIN <= address <= 0xDDFF,
    ensures
        memory.spec_write_work(address, value).spec_read_work(address) == value,
        memory.spec_write_work(address, value).spec_read_work((address + 0x2000) as usize)
            == value,
        memory.spec_write_work((address + 0x2000) as usize, value).spec_read_work(address)
            == value,
        memory.spec_read_work((address + 0x2000) as usize) == memory.spec_read_work(address),
{
    broadcast use vstd::array::group_array_axioms;

}

/// High RAM reads back what was written.
pub proof fn lemma_high_round_trip(memory: MMU, address: usize, value: u8)
    requires
        HRAM_BEGIN <= address <= HRAM_END,
    ensures
        memory.spec_write_high(address, value).spec_read_high(address) == value,
{
    broadcast use vstd::array::group_array_axioms;

}

} // verus!
