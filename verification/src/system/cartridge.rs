//! The cartridge: its image, its external RAM and the bank controller.

use super::error::EmulatorError;
use super::rtc::RealTimeClock;
use vstd::array::spec_array_update;
use vstd::prelude::*;

verus! {

/// Length of the shortest image that holds a whole header.
pub const HEADER_END: usize = 0x150;

/// The most external RAM that a header can ask for.
pub const RAM_LIMIT: usize = 0x20000;

/// Which of its two uses the upper bits of the first mapper's bank register
/// are put to.
#[derive(Clone, Copy, Debug, PartialEq, Eq)]
pub enum Mode {
    Rom,
    Ram,
}

#[derive(Clone, Copy, Debug, PartialEq, Eq)]
pub enum MBC {
    /// No mapper: the image is the whole address space of the cartridge.
    RomOnly,
    MBC1,
    MBC2,
    MBC3,
    MBC5,
}

/// The image with the bank controller's state. Of `game_ram` the first
/// `ram_size` bytes exist; the rest is never read or written.
pub struct Cartridge {
    pub game_rom: Vec<u8>,
    pub game_ram: Box<[u8; 0x20000]>,
    pub ram_size: usize,
    pub ram_enabled: bool,
    pub bank_mode: Mode,
    pub rtc: RealTimeClock,
    pub rom_bank: usize,
    pub ram_bank: usize,
    pub bank: u8,
    pub latch: u8,
    pub mbc: MBC,
}

/// What is to be kept on disk: the external RAM, and for a cartridge with a
/// clock the clock's zero point.
pub struct SaveImage {
    pub ram: Vec<u8>,
    pub zero: Option<Vec<u8>>,
}

/// Bytes of ROM that the header's size code stands for.
pub open spec fn spec_rom_size(code: u8) -> Option<usize> {
    if code == 0x00 {
        Some(0x8000usize)
    } else if code == 0x01 {
        Some(0x1_0000usize)
    } else if code == 0x02 {
        Some(0x2_0000usize)
    } else if code == 0x03 {
        Some(0x4_0000usize)
    } else if code == 0x04 {
        Some(0x8_0000usize)
    } else if code == 0x05 {
        Some(0x10_0000usize)
    } else if code == 0x06 {
        Some(0x20_0000usize)
    } else if code == 0x07 {
        Some(0x40_0000usize)
    } else if code == 0x08 {
        Some(0x80_0000usize)
    } else if code == 0x52 {
        Some(0x12_0000usize)
    } else if code == 0x53 {
        Some(0x14_0000usize)
    } else if code == 0x54 {
        Some(0x18_0000usize)
    } else {
        None
    }
}

/// Bytes of external RAM that the header's size code stands for.
pub open spec fn spec_ram_size(code: u8) -> Option<usize> {
    if code == 0x00 {
        Some(0usize)
    } else if code == 0x01 {
        Some(0x800usize)
    } else if code == 0x02 {
        Some(0x2000usize)
    } else if code == 0x03 {
        Some(0x8000usize)
    } else if code == 0x04 {
        Some(0x2_0000usize)
    } else if code == 0x05 {
        Some(0x1_0000usize)
    } else {
        None
    }
}

/// The mapper that the header's cartridge type names.
pub open spec fn spec_mbc_of(cart_type: u8) -> Option<MBC> {
    if cart_type == 0x00 {
        Some(MBC::RomOnly)
    } else if 0x01 <= cart_type <= 0x03 {
        Some(MBC::MBC1)
    } else if 0x05 <= cart_type <= 0x06 {
        Some(MBC::MBC2)
    } else if 0x0F <= cart_type <= 0x13 {
        Some(MBC::MBC3)
    } else if 0x19 <= cart_type <= 0x1B {
        Some(MBC::MBC5)
    } else {
        None
    }
}

/// Whether a cartridge of this type has external RAM of the size that the
/// header gives.
pub open spec fn spec_uses_header_ram(cart_type: u8) -> bool {
    cart_type == 0x02 || cart_type == 0x03 || cart_type == 0x10 || cart_type == 0x12
        || cart_type == 0x13 || cart_type == 0x1A || cart_type == 0x1B
}

/// Whether a cartridge of this type keeps its RAM on a battery, so that a
/// saved copy is loaded.
pub open spec fn spec_has_battery(cart_type: u8) -> bool {
    cart_type == 0x03 || cart_type == 0x06 || cart_type == 0x10 || cart_type == 0x13
        || cart_type == 0x1B
}

/// The size of the external RAM of a cartridge, from its type and the
/// header's RAM size code: the second mapper has 512 bytes built in, the
/// types with RAM have what the code says, the others none.
pub open spec fn spec_ram_size_of(cart_type: u8, code: u8) -> Option<usize> {
    if cart_type == 0x05 || cart_type == 0x06 {
        Some(0x200usize)
    } else if spec_uses_header_ram(cart_type) {
        spec_ram_size(code)
    } else {
        Some(0usize)
    }
}

/// Whether an image is taken at all: it holds a whole header and names a
/// known ROM size.
pub open spec fn spec_image_accepted(rom: Seq<u8>) -> bool {
    rom.len() >= HEADER_END && spec_rom_size(rom[0x148]) is Some
}

/// Whether an image can be set up: it holds a whole header, is no longer
/// than the header says, and names a known mapper and, where it has RAM, a
/// known RAM size.
pub open spec fn spec_header_valid(rom: Seq<u8>) -> bool {
    &&& rom.len() >= HEADER_END
    &&& spec_rom_size(rom[0x148]) is Some
    &&& rom.len() <= spec_rom_size(rom[0x148])->0
    &&& spec_mbc_of(rom[0x147]) is Some
    &&& spec_ram_size_of(rom[0x147], rom[0x149]) is Some
}

/// Byte `i` of the external RAM as a cartridge starts with it: the saved
/// byte where the RAM is battery-backed and a saved copy reaches that far,
/// zero elsewhere.
pub open spec fn spec_initial_ram(
    cart_type: u8,
    size: usize,
    saved: Option<Seq<u8>>,
    i: int,
) -> u8 {
    if spec_has_battery(cart_type) && saved is Some && 0 <= i < size && i < saved->0.len() {
        saved->0[i]
    } else {
        0
    }
}

/// The bytes of a saved copy, if there is one.
pub open spec fn spec_saved(saved_ram: Option<Vec<u8>>) -> Option<Seq<u8>> {
    match saved_ram {
        Some(v) => Some(v@),
        None => None,
    }
}

impl Cartridge {
    /// The bank numbers and the RAM size are within what the address
    /// arithmetic is made for.
    pub open spec fn wf(self) -> bool {
        &&& self.ram_size <= RAM_LIMIT
        &&& self.rom_bank < 0x200
        &&& self.ram_bank < 0x10
    }

    /// The byte of the image at `index`, zero past its end.
    pub open spec fn spec_rom_at(self, index: int) -> u8 {
        if 0 <= index < self.game_rom.len() {
            self.game_rom[index]
        } else {
            0
        }
    }

    /// The byte of external RAM at `index`, zero where there is no RAM.
    pub open spec fn spec_ram_at(self, index: int) -> u8 {
        if 0 <= index < self.ram_size && index < RAM_LIMIT {
            self.game_ram[index]
        } else {
            0
        }
    }

    /// The cartridge with `value` stored at `index` of the external RAM;
    /// unchanged where there is no RAM.
    pub open spec fn spec_set_ram(self, index: int, value: u8) -> Cartridge {
        if 0 <= index < self.ram_size && index < RAM_LIMIT {
            Cartridge { game_ram: Box::new(spec_array_update(*self.game_ram, index, value)), ..self }
        } else {
            self
        }
    }

    /// The ROM bank that the first mapper's bank register selects: seven
    /// bits of it in ROM mode, five in RAM mode.
    pub open spec fn spec_rom_bank(self) -> usize {
        match self.bank_mode {
            Mode::Rom => (self.bank % 0x80) as usize,
            Mode::Ram => (self.bank % 0x20) as usize,
        }
    }

    /// The RAM bank that the first mapper's bank register selects: bits 5
    /// and 6 of it in RAM mode, bank 0 in ROM mode.
    pub open spec fn spec_ram_bank(self) -> usize {
        match self.bank_mode {
            Mode::Rom => 0,
            Mode::Ram => (self.bank / 0x20 % 4) as usize,
        }
    }

    pub open spec fn spec_read_none(self, address: usize) -> u8 {
        self.spec_rom_at(address as int)
    }

    pub open spec fn spec_read_mbc1(self, address: usize) -> u8 {
        if address <= 0x3FFF {
            self.spec_rom_at(address as int)
        } else if address <= 0x7FFF {
            self.spec_rom_at(self.spec_rom_bank() * 0x4000 + address - 0x4000)
        } else if 0xA000 <= address <= 0xBFFF {
            if self.ram_enabled {
                self.spec_ram_at(self.spec_ram_bank() * 0x2000 + address - 0xA000)
            } else {
                0x00
            }
        } else {
            0xFF
        }
    }

    pub open spec fn spec_read_mbc2(self, address: usize) -> u8 {
        if address <= 0x3FFF {
            self.spec_rom_at(address as int)
        } else if address <= 0x7FFF {
            self.spec_rom_at(self.rom_bank * 0x4000 + address - 0x4000)
        } else if 0xA000 <= address <= 0xA1FF {
            if self.ram_enabled {
                self.spec_ram_at(address - 0xA000)
            } else {
                0x00
            }
        } else {
            0xFF
        }
    }

    pub open spec fn spec_read_mbc3(self, address: usize) -> u8 {
        if address <= 0x3FFF {
            self.spec_rom_at(address as int)
        } else if address <= 0x7FFF {
            self.spec_rom_at(self.rom_bank * 0x4000 + address - 0x4000)
        } else if 0xA000 <= address <= 0xBFFF {
            if !self.ram_enabled {
                0x00
            } else if self.ram_bank <= 0x03 {
                self.spec_ram_at(self.ram_bank * 0x2000 + address - 0xA000)
            } else {
                self.rtc.spec_read(self.ram_bank as u16)
            }
        } else {
            0x00
        }
    }

    pub open spec fn spec_read_mbc5(self, address: usize) -> u8 {
        if address <= 0x3FFF {
            self.spec_rom_at(address as int)
        } else if address <= 0x7FFF {
            self.spec_rom_at(self.rom_bank * 0x4000 + address - 0x4000)
        } else if 0xA000 <= address <= 0xBFFF {
            if self.ram_enabled {
                self.spec_ram_at(self.ram_bank * 0x2000 + address - 0xA000)
            } else {
                0x00
            }
        } else {
            0x00
        }
    }

    /// What a read at `address` returns.
    pub open spec fn spec_read(self, address: usize) -> u8 {
        match self.mbc {
            MBC::RomOnly => self.spec_read_none(address),
            MBC::MBC1 => self.spec_read_mbc1(address),
            MBC::MBC2 => self.spec_read_mbc2(address),
            MBC::MBC3 => self.spec_read_mbc3(address),
            MBC::MBC5 => self.spec_read_mbc5(address),
        }
    }

    /// The first mapper after a write. In the RAM window the byte is stored;
    /// below 0x2000 a low nibble of 0xA enables the RAM; below 0x4000 the low
    /// five bits of the bank register are set, zero standing for one; below
    /// 0x6000 its bits 5 and 6; below 0x8000 the value 0 selects ROM mode
    /// and 1 RAM mode.
    pub open spec fn spec_write_mbc1(self, address: usize, value: u8) -> Cartridge {
        if 0xA000 <= address <= 0xBFFF {
            if self.ram_enabled {
                self.spec_set_ram(self.spec_ram_bank() * 0x2000 + address - 0xA000, value)
            } else {
                self
            }
        } else if address <= 0x1FFF {
            Cartridge { ram_enabled: value % 0x10 == 0x0A, ..self }
        } else if address <= 0x3FFF {
            let low: u8 = if value % 0x20 == 0 {
                1
            } else {
                value % 0x20
            };
            Cartridge { bank: ((self.bank / 0x20 % 4) * 0x20 + low) as u8, ..self }
        } else if address <= 0x5FFF {
            Cartridge {
                bank: ((self.bank / 0x80) * 0x80 + (value % 4) * 0x20 + self.bank % 0x20) as u8,
                ..self
            }
        } else if address <= 0x7FFF {
            if value == 0x00 {
                Cartridge { bank_mode: Mode::Rom, ..self }
            } else if value == 0x01 {
                Cartridge { bank_mode: Mode::Ram, ..self }
            } else {
                self
            }
        } else {
            self
        }
    }

    /// The second mapper after a write. Only the low nibble of the value
    /// counts. In the first 512 bytes of the RAM window the nibble is stored;
    /// below 0x2000, with address bit 8 clear, the nibble 0xA enables the
    /// RAM; below 0x4000, with address bit 8 set, the nibble is the ROM bank.
    pub open spec fn spec_write_mbc2(self, address: usize, value: u8) -> Cartridge {
        let nibble: u8 = value % 0x10;
        if 0xA000 <= address <= 0xA1FF {
            if self.ram_enabled {
                self.spec_set_ram(address - 0xA000, nibble)
            } else {
                self
            }
        } else if address <= 0x1FFF {
            if address / 0x100 % 2 == 0 {
                Cartridge { ram_enabled: nibble == 0x0A, ..self }
            } else {
                self
            }
        } else if address <= 0x3FFF {
            if address / 0x100 % 2 == 1 {
                Cartridge { rom_bank: nibble as usize, ..self }
            } else {
                self
            }
        } else {
            self
        }
    }

    /// The third mapper after a write. In the RAM window the byte goes to
    /// the RAM bank or the clock register selected; below 0x2000 a low
    /// nibble of 0xA enables both; below 0x4000 seven bits give the ROM
    /// bank, zero standing for one; below 0x6000 four bits select the RAM
    /// bank or clock register; below 0x8000 a 1 written after a 0 latches the
    /// clock.
    pub open spec fn spec_write_mbc3(self, address: usize, value: u8) -> Cartridge {
        if 0xA000 <= address <= 0xBFFF {
            if !self.ram_enabled {
                self
            } else if self.ram_bank <= 0x03 {
                self.spec_set_ram(self.ram_bank * 0x2000 + address - 0xA000, value)
            } else {
                Cartridge { rtc: self.rtc.spec_write(self.ram_bank as u16, value), ..self }
            }
        } else if address <= 0x1FFF {
            Cartridge { ram_enabled: value % 0x10 == 0x0A, ..self }
        } else if address <= 0x3FFF {
            Cartridge {
                rom_bank: if value % 0x80 == 0 {
                    1
                } else {
                    (value % 0x80) as usize
                },
                ..self
            }
        } else if address <= 0x5FFF {
            Cartridge { ram_bank: (value % 0x10) as usize, ..self }
        } else if address <= 0x7FFF {
            Cartridge {
                rtc: if self.latch == 0 && value == 1 {
                    self.rtc.spec_tick()
                } else {
                    self.rtc
                },
                latch: value,
                ..self
            }
        } else {
            self
        }
    }

    /// The fifth mapper after a write. In the RAM window the byte is stored;
    /// below 0x2000 a low nibble of 0xA enables the RAM; below 0x3000 the
    /// value gives the low eight bits of the ROM bank; below 0x4000 its bit 0
    /// gives bit 8; below 0x6000 four bits give the RAM bank.
    pub open spec fn spec_write_mbc5(self, address: usize, value: u8) -> Cartridge {
        if 0xA000 <= address <= 0xBFFF {
            if self.ram_enabled {
                self.spec_set_ram(self.ram_bank * 0x2000 + address - 0xA000, value)
            } else {
                self
            }
        } else if address <= 0x1FFF {
            Cartridge { ram_enabled: value % 0x10 == 0x0A, ..self }
        } else if address <= 0x2FFF {
            Cartridge { rom_bank: ((self.rom_bank / 0x100 % 2) * 0x100 + value) as usize, ..self }
        } else if address <= 0x3FFF {
            Cartridge {
                rom_bank: (self.rom_bank % 0x100 + (value % 2) * 0x100) as usize,
                ..self
            }
        } else if address <= 0x5FFF {
            Cartridge { ram_bank: (value % 0x10) as usize, ..self }
        } else {
            self
        }
    }

    /// The cartridge after a write at `address`.
    pub open spec fn spec_write(self, address: usize, value: u8) -> Cartridge {
        match self.mbc {
            MBC::RomOnly => self,
            MBC::MBC1 => self.spec_write_mbc1(address, value),
            MBC::MBC2 => self.spec_write_mbc2(address, value),
            MBC::MBC3 => self.spec_write_mbc3(address, value),
            MBC::MBC5 => self.spec_write_mbc5(address, value),
        }
    }

    /// Bytes of ROM that a header's size code stands for, if the code is
    /// known.
    pub fn get_rom_size(&self, code: u8) -> (r: Option<usize>)
        ensures
            r == spec_rom_size(code),
    {
        let bank: usize = 0x4000;
        match code {
            0x00 => Some(bank * 2),
            0x01 => Some(bank * 4),
            0x02 => Some(bank * 8),
            0x03 => Some(bank * 16),
            0x04 => Some(bank * 32),
            0x05 => Some(bank * 64),
            0x06 => Some(bank * 128),
            0x07 => Some(bank * 256),
            0x08 => Some(bank * 512),
            0x52 => Some(bank * 72),
            0x53 => Some(bank * 80),
            0x54 => Some(bank * 96),
            _ => None,
        }
    }

    /// Bytes of external RAM that a header's size code stands for, if the code
    /// is known.
    pub fn get_ram_size(&self, code: u8) -> (r: Option<usize>)
        ensures
            r == spec_ram_size(code),
    {
        match code {
            0x00 => Some(0),
            0x01 => Some(0x400 * 2),
            0x02 => Some(0x400 * 8),
            0x03 => Some(0x400 * 32),
            0x04 => Some(0x400 * 128),
            0x05 => Some(0x400 * 64),
            _ => None,
        }
    }

    /// Tells whether the cartridge is in order.
    pub fn is_valid(&self) -> (r: bool)
        ensures
            r == self.wf(),
    {
        self.ram_size <= RAM_LIMIT && self.rom_bank < 0x200 && self.ram_bank < 0x10
    }

    /// Whether the cartridge is as it is made from an image: without mapper
    /// and without RAM, on ROM bank 1.
    pub open spec fn spec_fresh(self, rom: Seq<u8>) -> bool {
        &&& self.game_rom@ == rom
        &&& self.ram_size == 0
        &&& !self.ram_enabled
        &&& self.bank_mode == Mode::Rom
        &&& self.rtc == (RealTimeClock { s: 0, m: 0, h: 0, dl: 0, dh: 0, zero: 0, now: 0 })
        &&& self.rom_bank == 1
        &&& self.ram_bank == 0
        &&& self.bank == 1
        &&& self.latch == 0
        &&& self.mbc == MBC::RomOnly
        &&& forall|i: int| 0 <= i < RAM_LIMIT ==> self.game_ram[i] == 0
    }

    /// Takes an image. It is refused if it is too short to hold a header or
    /// if its ROM size code is unknown.
    pub fn new(rom: Vec<u8>) -> (r: Result<Cartridge, EmulatorError>)
        ensures
            r is Err <==> !spec_image_accepted(rom@),
            r is Err ==> r->Err_0 == EmulatorError::InvalidHeader,
            r is Ok ==> r->Ok_0.spec_fresh(rom@) && r->Ok_0.wf(),
    {
        if rom.len() < HEADER_END {
            return Err(EmulatorError::InvalidHeader);
        }
        let cartridge = Cartridge {
            game_rom: rom,
            game_ram: Box::new([0u8; 0x20000]),
            ram_size: 0,
            rtc: RealTimeClock::new(None, 0),
            ram_enabled: false,
            bank_mode: Mode::Rom,
            rom_bank: 0x01,
            ram_bank: 0x00,
            bank: 0x01,
            latch: 0x00,
            mbc: MBC::RomOnly,
        };
        if cartridge.get_rom_size(cartridge.game_rom[0x148]).is_none() {
            return Err(EmulatorError::InvalidHeader);
        }
        Ok(cartridge)
    }

    /// Reads the header and sets up the mapper and the external RAM. Where
    /// the RAM is battery-backed and a saved copy is given, the RAM starts
    /// with it; else it starts as zeros. A header that cannot be used leaves
    /// the cartridge as it was.
    pub fn determine_mbc(&mut self, saved_ram: Option<Vec<u8>>) -> (r: Result<(), EmulatorError>)
        requires
            old(self).wf(),
        ensures
            r is Ok <==> spec_header_valid(old(self).game_rom@),
            r is Err ==> r->Err_0 == EmulatorError::InvalidHeader && *final(self) == *old(self),
            r is Ok ==> {
                let rom = old(self).game_rom@;
                let size = spec_ram_size_of(rom[0x147], rom[0x149])->0;
                let saved = spec_saved(saved_ram);
                &&& final(self).wf()
                &&& final(self).mbc == spec_mbc_of(rom[0x147])->0
                &&& final(self).ram_size == size
                &&& forall|i: int|
                    0 <= i < RAM_LIMIT ==> final(self).game_ram[i] == spec_initial_ram(
                        rom[0x147],
                        size,
                        saved,
                        i,
                    )
                &&& final(self).game_rom == old(self).game_rom
                &&& final(self).ram_enabled == old(self).ram_enabled
                &&& final(self).bank_mode == old(self).bank_mode
                &&& final(self).rtc == old(self).rtc
                &&& final(self).rom_bank == old(self).rom_bank
                &&& final(self).ram_bank == old(self).ram_bank
                &&& final(self).bank == old(self).bank
                &&& final(self).latch == old(self).latch
            },
    {
        if self.game_rom.len() < HEADER_END {
            return Err(EmulatorError::InvalidHeader);
        }
        let rom_size: usize = match self.get_rom_size(self.game_rom[0x148]) {
            Some(n) => n,
            None => {
                return Err(EmulatorError::InvalidHeader);
            },
        };
        if self.game_rom.len() > rom_size {
            return Err(EmulatorError::InvalidHeader);
        }
        let cart_type: u8 = self.game_rom[0x147];
        let mbc = match cart_type {
            0x00 => MBC::RomOnly,
            0x01 | 0x02 | 0x03 => MBC::MBC1,
            0x05 | 0x06 => MBC::MBC2,
            0x0F | 0x10 | 0x11 | 0x12 | 0x13 => MBC::MBC3,
            0x19 | 0x1A | 0x1B => MBC::MBC5,
            _ => {
                return Err(EmulatorError::InvalidHeader);
            },
        };
        let uses_header: bool = cart_type == 0x02 || cart_type == 0x03 || cart_type == 0x10
            || cart_type == 0x12 || cart_type == 0x13 || cart_type == 0x1A || cart_type == 0x1B;
        let size: usize = if cart_type == 0x05 || cart_type == 0x06 {
            0x200
        } else if uses_header {
            match self.get_ram_size(self.game_rom[0x149]) {
                Some(n) => n,
                None => {
                    return Err(EmulatorError::InvalidHeader);
                },
            }
        } else {
            0
        };
        let battery: bool = cart_type == 0x03 || cart_type == 0x06 || cart_type == 0x10
            || cart_type == 0x13 || cart_type == 0x1B;
        self.mbc = mbc;
        self.ram_size = size;
        let ghost saved = spec_saved(saved_ram);
        let mut i: usize = 0;
        while i < 0x20000
            invariant
                i <= 0x20000,
                size <= RAM_LIMIT,
                battery == spec_has_battery(cart_type),
                saved == spec_saved(saved_ram),
                self.mbc == mbc,
                self.ram_size == size,
                self.game_rom == old(self).game_rom,
                self.ram_enabled == old(self).ram_enabled,
                self.bank_mode == old(self).bank_mode,
                self.rtc == old(self).rtc,
                self.rom_bank == old(self).rom_bank,
                self.ram_bank == old(self).ram_bank,
                self.bank == old(self).bank,
                self.latch == old(self).latch,
                forall|k: int|
                    0 <= k < i ==> self.game_ram[k] == spec_initial_ram(cart_type, size, saved, k),
            decreases 0x20000 - i,
        {
            let byte: u8 = match &saved_ram {
                Some(v) => {
                    if battery && i < size && i < v.len() {
                        v[i]
                    } else {
                        0
                    }
                },
                None => 0,
            };
            self.game_ram[i] = byte;
            i = i + 1;
        }
        Ok(())
    }

    /// The byte of the image at `index`.
    pub fn rom_at(&self, index: usize) -> (r: u8)
        ensures
            r == self.spec_rom_at(index as int),
    {
        if index < self.game_rom.len() {
            self.game_rom[index]
        } else {
            0x00
        }
    }

    /// The byte of external RAM at `index`.
    pub fn ram_at(&self, index: usize) -> (r: u8)
        ensures
            r == self.spec_ram_at(index as int),
    {
        if index < self.ram_size && index < RAM_LIMIT {
            self.game_ram[index]
        } else {
            0x00
        }
    }

    /// Stores a byte in the external RAM.
    pub fn set_ram(&mut self, index: usize, value: u8)
        ensures
            *final(self) == old(self).spec_set_ram(index as int, value),
    {
        if index < self.ram_size && index < RAM_LIMIT {
            self.game_ram[index] = value;
            assert(*self.game_ram =~= spec_array_update(*old(self).game_ram, index as int, value));
        }
    }

    pub fn rom_bank(&self) -> (r: usize)
        ensures
            r == self.spec_rom_bank(),
            r < 0x80,
    {
        match self.bank_mode {
            Mode::Rom => (self.bank % 0x80) as usize,
            Mode::Ram => (self.bank % 0x20) as usize,
        }
    }

    pub fn ram_bank(&self) -> (r: usize)
        ensures
            r == self.spec_ram_bank(),
            r < 4,
    {
        match self.bank_mode {
            Mode::Rom => 0x00,
            Mode::Ram => (self.bank / 0x20 % 4) as usize,
        }
    }

    pub fn read_byte_none(&self, address: usize) -> (r: u8)
        ensures
            r == self.spec_read_none(address),
    {
        self.rom_at(address)
    }

    pub fn read_byte_mbc1(&self, address: usize) -> (r: u8)
        ensures
            r == self.spec_read_mbc1(address),
    {
        if address <= 0x3FFF {
            self.rom_at(address)
        } else if address <= 0x7FFF {
            self.rom_at(self.rom_bank() * 0x4000 + address - 0x4000)
        } else if 0xA000 <= address && address <= 0xBFFF {
            if self.ram_enabled {
                self.ram_at(self.ram_bank() * 0x2000 + address - 0xA000)
            } else {
                0x00
            }
        } else {
            0xFF
        }
    }

    pub fn read_byte_mbc2(&self, address: usize) -> (r: u8)
        requires
            self.wf(),
        ensures
            r == self.spec_read_mbc2(address),
    {
        if address <= 0x3FFF {
            self.rom_at(address)
        } else if address <= 0x7FFF {
            self.rom_at(self.rom_bank * 0x4000 + address - 0x4000)
        } else if 0xA000 <= address && address <= 0xA1FF {
            if self.ram_enabled {
                self.ram_at(address - 0xA000)
            } else {
                0x00
            }
        } else {
            0xFF
        }
    }

    pub fn read_byte_mbc3(&self, address: usize) -> (r: u8)
        requires
            self.wf(),
        ensures
            r == self.spec_read_mbc3(address),
    {
        if address <= 0x3FFF {
            self.rom_at(address)
        } else if address <= 0x7FFF {
            self.rom_at(self.rom_bank * 0x4000 + address - 0x4000)
        } else if 0xA000 <= address && address <= 0xBFFF {
            if !self.ram_enabled {
                0x00
            } else if self.ram_bank <= 0x03 {
                self.ram_at(self.ram_bank * 0x2000 + address - 0xA000)
            } else {
                self.rtc.read_rtc(self.ram_bank as u16)
            }
        } else {
            0x00
        }
    }

    pub fn read_byte_mbc5(&self, address: usize) -> (r: u8)
        requires
            self.wf(),
        ensures
            r == self.spec_read_mbc5(address),
    {
        if address <= 0x3FFF {
            self.rom_at(address)
        } else if address <= 0x7FFF {
            self.rom_at(self.rom_bank * 0x4000 + address - 0x4000)
        } else if 0xA000 <= address && address <= 0xBFFF {
            if self.ram_enabled {
                self.ram_at(self.ram_bank * 0x2000 + address - 0xA000)
            } else {
                0x00
            }
        } else {
            0x00
        }
    }

    pub fn write_byte_none(&mut self, address: usize, value: u8)
        ensures
            *final(self) == *old(self),
    {
    }

    pub fn write_byte_mbc1(&mut self, address: usize, value: u8)
        requires
            old(self).wf(),
        ensures
            *final(self) == old(self).spec_write_mbc1(address, value),
            final(self).wf(),
    {
        if 0xA000 <= address && address <= 0xBFFF {
            if self.ram_enabled {
                let index: usize = self.ram_bank() * 0x2000 + address - 0xA000;
                self.set_ram(index, value);
            }
        } else if address <= 0x1FFF {
            self.ram_enabled = value % 0x10 == 0x0A;
        } else if address <= 0x3FFF {
            let low: u8 = if value % 0x20 == 0 {
                1
            } else {
                value % 0x20
            };
            self.bank = (self.bank / 0x20 % 4) * 0x20 + low;
        } else if address <= 0x5FFF {
            self.bank = (self.bank / 0x80) * 0x80 + (value % 4) * 0x20 + self.bank % 0x20;
        } else if address <= 0x7FFF {
            if value == 0x00 {
                self.bank_mode = Mode::Rom;
            } else if value == 0x01 {
                self.bank_mode = Mode::Ram;
            }
        }
    }

    pub fn write_byte_mbc2(&mut self, address: usize, value: u8)
        requires
            old(self).wf(),
        ensures
            *final(self) == old(self).spec_write_mbc2(address, value),
            final(self).wf(),
    {
        let nibble: u8 = value % 0x10;
        if 0xA000 <= address && address <= 0xA1FF {
            if self.ram_enabled {
                self.set_ram(address - 0xA000, nibble);
            }
        } else if address <= 0x1FFF {
            if address / 0x100 % 2 == 0 {
                self.ram_enabled = nibble == 0x0A;
            }
        } else if address <= 0x3FFF {
            if address / 0x100 % 2 == 1 {
                self.rom_bank = nibble as usize;
            }
        }
    }

    pub fn write_byte_mbc3(&mut self, address: usize, value: u8)
        requires
            old(self).wf(),
        ensures
            *final(self) == old(self).spec_write_mbc3(address, value),
            final(self).wf(),
    {
        if 0xA000 <= address && address <= 0xBFFF {
            if self.ram_enabled {
                if self.ram_bank <= 0x03 {
                    let index: usize = self.ram_bank * 0x2000 + address - 0xA000;
                    self.set_ram(index, value);
                } else {
                    self.rtc.write_rtc(self.ram_bank as u16, value);
                }
            }
        } else if address <= 0x1FFF {
            self.ram_enabled = value % 0x10 == 0x0A;
        } else if address <= 0x3FFF {
            self.rom_bank = if value % 0x80 == 0 {
                1
            } else {
                (value % 0x80) as usize
            };
        } else if address <= 0x5FFF {
            self.ram_bank = (value % 0x10) as usize;
        } else if address <= 0x7FFF {
            if self.latch == 0 && value == 1 {
                self.rtc.tick();
            }
            self.latch = value;
        }
    }

    pub fn write_byte_mbc5(&mut self, address: usize, value: u8)
        requires
            old(self).wf(),
        ensures
            *final(self) == old(self).spec_write_mbc5(address, value),
            final(self).wf(),
    {
        if 0xA000 <= address && address <= 0xBFFF {
            if self.ram_enabled {
                let index: usize = self.ram_bank * 0x2000 + address - 0xA000;
                self.set_ram(index, value);
            }
        } else if address <= 0x1FFF {
            self.ram_enabled = value % 0x10 == 0x0A;
        } else if address <= 0x2FFF {
            self.rom_bank = (self.rom_bank / 0x100 % 2) * 0x100 + value as usize;
        } else if address <= 0x3FFF {
            self.rom_bank = self.rom_bank % 0x100 + ((value % 2) as usize) * 0x100;
        } else if address <= 0x5FFF {
            self.ram_bank = (value % 0x10) as usize;
        }
    }

    /// What is to be written to disk: for a cartridge with a mapper its
    /// external RAM, and with the third mapper the clock's zero point too; for
    /// one without mapper nothing.
    pub fn save(&self) -> (r: Option<SaveImage>)
        requires
            self.wf(),
        ensures
            r is None <==> self.mbc == MBC::RomOnly,
            r is Some ==> {
                &&& r->0.ram@.len() == self.ram_size
                &&& forall|i: int| 0 <= i < self.ram_size ==> r->0.ram@[i] == self.game_ram[i]
                &&& r->0.zero is Some <==> self.mbc == MBC::MBC3
                &&& r->0.zero is Some ==> r->0.zero->0@ == self.rtc.spec_zero_bytes()
            },
    {
        let zero: Option<Vec<u8>> = match self.mbc {
            MBC::RomOnly => {
                return None;
            },
            MBC::MBC3 => Some(self.rtc.rtc_save()),
            _ => None,
        };
        let mut ram: Vec<u8> = Vec::new();
        let mut i: usize = 0;
        while i < self.ram_size
            invariant
                i <= self.ram_size,
                self.ram_size <= RAM_LIMIT,
                ram.len() == i,
                forall|k: int| 0 <= k < i ==> ram@[k] == self.game_ram[k],
            decreases self.ram_size - i,
        {
            ram.push(self.game_ram[i]);
            i = i + 1;
        }
        Some(SaveImage { ram, zero })
    }

    pub fn read_byte(&self, address: usize) -> (r: u8)
        requires
            self.wf(),
        ensures
            r == self.spec_read(address),
    {
        match self.mbc {
            MBC::RomOnly => self.read_byte_none(address),
            MBC::MBC1 => self.read_byte_mbc1(address),
            MBC::MBC2 => self.read_byte_mbc2(address),
            MBC::MBC3 => self.read_byte_mbc3(address),
            MBC::MBC5 => self.read_byte_mbc5(address),
        }
    }

    pub fn write_byte(&mut self, address: usize, value: u8)
        requires
            old(self).wf(),
        ensures
            *final(self) == old(self).spec_write(address, value),
            final(self).wf(),
    {
        match self.mbc {
            MBC::RomOnly => self.write_byte_none(address, value),
            MBC::MBC1 => self.write_byte_mbc1(address, value),
            MBC::MBC2 => self.write_byte_mbc2(address, value),
            MBC::MBC3 => self.write_byte_mbc3(address, value),
            MBC::MBC5 => self.write_byte_mbc5(address, value),
        }
    }
}

/// The index in the external RAM that an address of the RAM window stands
/// for, with the bank now selected.
pub open spec fn spec_ram_index(cart: Cartridge, address: usize) -> int {
    match cart.mbc {
        MBC::RomOnly => address as int,
        MBC::MBC1 => cart.spec_ram_bank() * 0x2000 + address - 0xA000,
        MBC::MBC2 => address - 0xA000,
        MBC::MBC3 => cart.ram_bank * 0x2000 + address - 0xA000,
        MBC::MBC5 => cart.ram_bank * 0x2000 + address - 0xA000,
    }
}

/// With the RAM enabled, a byte written into the RAM window is read back
/// from the same address, as long as the address stands for a byte of RAM
/// that the cartridge has. The second mapper keeps the low nibble only and
/// has its RAM in the first 512 bytes of the window; the third mapper must
/// have a RAM bank selected.
pub proof fn lemma_ram_round_trip(cart: Cartridge, address: usize, value: u8)
    requires
        cart.wf(),
        cart.mbc != MBC::RomOnly,
        cart.ram_enabled,
        0xA000 <= address <= 0xBFFF,
        0 <= spec_ram_index(cart, address) < cart.ram_size,
        cart.mbc == MBC::MBC2 ==> address <= 0xA1FF,
        cart.mbc == MBC::MBC3 ==> cart.ram_bank <= 0x03,
    ensures
        cart.mbc != MBC::MBC2 ==> cart.spec_write(address, value).spec_read(address) == value,
        cart.mbc == MBC::MBC2 ==> cart.spec_write(address, value).spec_read(address) == value
            % 0x10,
{
    broadcast use vstd::array::group_array_axioms;

}

/// With the third mapper's clock selected and the RAM enabled, a byte
/// written into the RAM window is read back from the clock register.
pub proof fn lemma_clock_round_trip(cart: Cartridge, address: usize, value: u8)
    requires
        cart.mbc == MBC::MBC3,
        cart.ram_enabled,
        0xA000 <= address <= 0xBFFF,
        0x08 <= cart.ram_bank <= 0x0C,
    ensures
        cart.spec_write(address, value).spec_read(address) == value,
{
}

/// With the RAM disabled the RAM window reads as zero and a write into it
/// changes nothing.
pub proof fn lemma_ram_disabled(cart: Cartridge, address: usize, value: u8)
    requires
        cart.mbc != MBC::RomOnly,
        !cart.ram_enabled,
        0xA000 <= address <= 0xBFFF,
        cart.mbc == MBC::MBC2 ==> address <= 0xA1FF,
    ensures
        cart.spec_read(address) == 0,
        cart.spec_write(address, value) == cart,
{
}

/// After a write to the ROM bank register of the first or the third
/// mapper, the bank number written is never zero: zero stands for one.
pub proof fn lemma_bank_zero_stands_for_one(cart: Cartridge, address: usize, value: u8)
    requires
        0x2000 <= address <= 0x3FFF,
    ensures
        cart.mbc == MBC::MBC1 ==> cart.spec_write(address, value).bank % 0x20 == (if value % 0x20
            == 0 {
            1
        } else {
            value % 0x20
        }),
        cart.mbc == MBC::MBC1 ==> cart.spec_write(address, value).bank / 0x20 == cart.bank / 0x20
            % 4,
        cart.mbc == MBC::MBC3 ==> cart.spec_write(address, value).rom_bank == (if value % 0x80
            == 0 {
            1
        } else {
            value % 0x80
        }),
{
}

} // verus!
