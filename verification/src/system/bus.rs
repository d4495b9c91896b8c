//! The address decoder. It owns every device and routes each of the 65536
//! addresses to one of them.

use super::audio::{APU, SOUND_BEGIN, SOUND_END};
use super::error::EmulatorError;
use super::gpu::{GPU, GPU_REGS_BEGIN, GPU_REGS_END, OAM_BEGIN, OAM_END, VRAM_END};
use super::hdma::HDMA;
use super::interrupts::{Interrupt, INTERRUPT_ENABLE, INTERRUPT_FLAG};
use super::joypad::{Joypad, Keys, JOYPAD_INPUT};
use super::memory::{ECHO_END, ERAM_END, HRAM_BEGIN, HRAM_END, MMU};
use super::registers::{spec_high, spec_low};
use super::serial::{Serial, SERIAL_CONTROL, SERIAL_DATA};
use super::timer::{Timer, DIVIDER_REGISTER, TAC, TIMA, TMA};
use vstd::prelude::*;

verus! {

/// The processor's clock: once or twice the base rate.
#[derive(Clone, Copy, Debug, PartialEq, Eq)]
pub enum Speed {
    Regular,
    Double,
}

pub struct MemoryBus {
    pub interrupt: Interrupt,
    pub memory: MMU,
    pub gpu: GPU,
    pub keys: Joypad,
    pub timer: Timer,
    pub apu: APU,
    pub serial: Serial,
    /// Whether the boot ROM is still mapped over the start of the cartridge.
    pub run_bootrom: bool,
    pub bootrom: Vec<u8>,
    pub speed: Speed,
    /// Whether a change of speed has been asked for and awaits STOP.
    pub speed_shift: bool,
    pub hdma: HDMA,
}

impl Speed {
    /// Timer cycles per processor cycle.
    pub open spec fn spec_factor(self) -> u32 {
        match self {
            Speed::Regular => 1,
            Speed::Double => 2,
        }
    }

    pub fn factor(self) -> (r: u32)
        ensures
            r == self.spec_factor(),
    {
        match self {
            Speed::Regular => 1,
            Speed::Double => 2,
        }
    }
}

impl MemoryBus {
    pub open spec fn wf(self) -> bool {
        &&& self.memory.wf()
        &&& self.gpu.inv()
        &&& self.timer.wf()
        &&& self.hdma.wf()
    }

    /// The last address that the boot ROM covers while it is mapped.
    pub open spec fn spec_boot_end(self) -> usize {
        if self.gpu.spec_is_cgb() {
            0x08FF
        } else {
            0x00FF
        }
    }

    /// The byte of the boot ROM at `address`, zero past its end.
    pub open spec fn spec_boot_at(self, address: usize) -> u8 {
        if address < self.bootrom.len() {
            self.bootrom[address as int]
        } else {
            0
        }
    }

    /// The speed register as it reads: the speed in bit 7, the pending
    /// change in bit 0.
    pub open spec fn spec_speed_register(self) -> u8 {
        ((if self.speed == Speed::Double { 0x80int } else { 0 }) + (if self.speed_shift {
            1int
        } else {
            0
        })) as u8
    }

    /// What a read at `address` returns.
    #[verifier::opaque]
    pub open spec fn spec_read(self, address: u16) -> u8 {
        let a = address as usize;
        if a <= 0x7FFF {
            if self.run_bootrom && a <= self.spec_boot_end() {
                self.spec_boot_at(a)
            } else {
                self.memory.cartridge.spec_read(a)
            }
        } else if a <= VRAM_END {
            self.gpu.spec_read_vram(a)
        } else if a <= ERAM_END {
            self.memory.cartridge.spec_read(a)
        } else if a <= ECHO_END {
            self.memory.spec_read_work(a)
        } else if a <= OAM_END {
            self.gpu.oam[a - OAM_BEGIN]
        } else if a <= 0xFEFF {
            0
        } else if a == JOYPAD_INPUT {
            self.keys.spec_state()
        } else if a == SERIAL_DATA || a == SERIAL_CONTROL {
            self.serial.spec_read(a)
        } else if a == DIVIDER_REGISTER {
            self.timer.divider_register
        } else if a == TIMA {
            self.timer.tima
        } else if a == TMA {
            self.timer.tma
        } else if a == TAC {
            self.timer.spec_control()
        } else if a == INTERRUPT_FLAG {
            self.interrupt.interrupt_flag
        } else if SOUND_BEGIN <= a <= SOUND_END {
            self.apu.spec_read(a)
        } else if GPU_REGS_BEGIN <= a <= GPU_REGS_END || a == 0xFF4F || 0xFF68 <= a <= 0xFF6B {
            self.gpu.spec_read_registers(a)
        } else if a == 0xFF4D {
            self.spec_speed_register()
        } else if 0xFF51 <= a <= 0xFF55 {
            self.hdma.spec_read(address)
        } else if a == 0xFF70 {
            self.memory.wram_bank as u8
        } else if HRAM_BEGIN <= a <= HRAM_END {
            self.memory.spec_read_high(a)
        } else if a == INTERRUPT_ENABLE {
            self.interrupt.interrupt_enable
        } else {
            0
        }
    }

    /// The bus with the first `n` bytes of a sprite table transfer done:
    /// byte `i` of the table is what the bus reads at `base + i`.
    pub open spec fn spec_dma_upto(self, base: u16, n: nat) -> MemoryBus
        decreases n,
    {
        if n == 0 {
            self
        } else {
            let before = self.spec_dma_upto(base, (n - 1) as nat);
            MemoryBus {
                gpu: before.gpu.spec_write_oam(
                    n - 1,
                    before.spec_read(((base + n - 1) % 0x1_0000) as u16),
                ),
                ..before
            }
        }
    }

    /// The bus after a write of `value` to the transfer register: the 160
    /// bytes from `value * 0x100` on are copied into the sprite table.
    pub open spec fn spec_dma(self, value: u8) -> MemoryBus {
        self.spec_dma_upto((value * 0x100) as u16, 0xA0)
    }

    /// The bus after a write at `address`. A write where nothing is mapped
    /// changes nothing.
    #[verifier::opaque]
    pub open spec fn spec_write(self, address: u16, value: u8) -> MemoryBus {
        let a = address as usize;
        if a <= 0x7FFF {
            MemoryBus {
                memory: MMU { cartridge: self.memory.cartridge.spec_write(a, value), ..self.memory },
                ..self
            }
        } else if a <= VRAM_END {
            MemoryBus { gpu: self.gpu.spec_write_vram(a, value), ..self }
        } else if a <= ERAM_END {
            MemoryBus {
                memory: MMU { cartridge: self.memory.cartridge.spec_write(a, value), ..self.memory },
                ..self
            }
        } else if a <= ECHO_END {
            MemoryBus { memory: self.memory.spec_write_work(a, value), ..self }
        } else if a <= OAM_END {
            MemoryBus { gpu: self.gpu.spec_write_oam(a - OAM_BEGIN, value), ..self }
        } else if a <= 0xFEFF {
            self
        } else if a == JOYPAD_INPUT {
            MemoryBus { keys: Joypad { select: value, ..self.keys }, ..self }
        } else if a == SERIAL_DATA || a == SERIAL_CONTROL {
            MemoryBus { serial: self.serial.spec_write(a, value), ..self }
        } else if a == DIVIDER_REGISTER {
            MemoryBus { timer: Timer { divider_register: 0, ..self.timer }, ..self }
        } else if a == TIMA {
            MemoryBus { timer: Timer { tima: value, ..self.timer }, ..self }
        } else if a == TMA {
            MemoryBus { timer: Timer { tma: value, ..self.timer }, ..self }
        } else if a == TAC {
            MemoryBus { timer: self.timer.spec_set_control(value), ..self }
        } else if a == INTERRUPT_FLAG {
            MemoryBus { interrupt: Interrupt { interrupt_flag: value, ..self.interrupt }, ..self }
        } else if SOUND_BEGIN <= a <= SOUND_END {
            MemoryBus { apu: self.apu.spec_write(a, value), ..self }
        } else if a == 0xFF46 {
            self.spec_dma(value)
        } else if GPU_REGS_BEGIN <= a <= GPU_REGS_END || a == 0xFF4F || 0xFF68 <= a <= 0xFF6B {
            MemoryBus { gpu: self.gpu.spec_write_registers(a, value), ..self }
        } else if a == 0xFF4D {
            MemoryBus { speed_shift: value % 2 == 1, ..self }
        } else if 0xFF51 <= a <= 0xFF55 {
            MemoryBus { hdma: self.hdma.spec_write(address, value), ..self }
        } else if a == 0xFF70 {
            MemoryBus { memory: self.memory.spec_select_bank(value), ..self }
        } else if HRAM_BEGIN <= a <= HRAM_END {
            MemoryBus { memory: self.memory.spec_write_high(a, value), ..self }
        } else if a == INTERRUPT_ENABLE {
            MemoryBus { interrupt: Interrupt { interrupt_enable: value, ..self.interrupt }, ..self }
        } else {
            self
        }
    }

    /// The word whose low byte is read at `address` and whose high byte is
    /// read at the next address.
    pub open spec fn spec_read_word(self, address: u16) -> u16 {
        super::registers::spec_pair(
            self.spec_read(((address + 1) % 0x1_0000) as u16),
            self.spec_read(address),
        )
    }

    /// The bus after a write of a word: the low byte at `address`, then the
    /// high byte at the next address.
    pub open spec fn spec_write_word(self, address: u16, word: u16) -> MemoryBus {
        self.spec_write(address, spec_low(word)).spec_write(
            ((address + 1) % 0x1_0000) as u16,
            spec_high(word),
        )
    }

    /// The bus after STOP: a pending change of speed is carried out.
    pub open spec fn spec_change_speed(self) -> MemoryBus {
        MemoryBus {
            speed: if !self.speed_shift {
                self.speed
            } else if self.speed == Speed::Double {
                Speed::Regular
            } else {
                Speed::Double
            },
            speed_shift: false,
            ..self
        }
    }

    /// Tells whether every device on the bus is in order.
    pub fn is_valid(&self) -> (r: bool)
        ensures
            r == self.wf(),
    {
        self.memory.is_valid() && self.gpu.is_valid() && self.timer.is_valid()
            && self.hdma.is_valid()
    }

    /// Whether every device on the bus is as at power-on, round a cartridge
    /// as made from the image.
    pub open spec fn spec_fresh(self, rom: Seq<u8>) -> bool {
        &&& self.memory.spec_fresh(rom)
        &&& self.gpu.spec_power_on()
        &&& self.interrupt == (Interrupt {
            interrupt_enable: 0,
            interrupt_flag: 0,
            interrupt_master_enable: true,
            interrupt_delay: false,
        })
        &&& self.keys == (Joypad { matrix: 0xFF, select: 0 })
        &&& self.serial == (Serial { data: 0, control: 0 })
        &&& self.timer == (Timer {
            tima: 0,
            clock_counter: 1024,
            divider_register: 0,
            divider_counter: 0,
            tma: 0,
            input_clock_speed: 1024,
            clock_enabled: false,
        })
        &&& forall|a: usize| self.apu.spec_read(a) == 0
        &&& self.hdma == (HDMA {
            source: 0x0000,
            destination: 0x8000,
            active: false,
            mode: super::hdma::HDMAMode::GDMA,
            remain: 0x00,
        })
        &&& !self.run_bootrom
        &&& self.bootrom@.len() == 0
        &&& self.speed == Speed::Regular
        &&& !self.speed_shift
    }

    /// A bus with every device at power-on round a cartridge made from the
    /// image. The image is refused as the cartridge refuses it.
    pub fn new(rom: Vec<u8>) -> (r: Result<MemoryBus, EmulatorError>)
        ensures
            r is Err <==> !super::cartridge::spec_image_accepted(rom@),
            r is Err ==> r->Err_0 == EmulatorError::InvalidHeader,
            r is Ok ==> r->Ok_0.spec_fresh(rom@) && r->Ok_0.wf(),
    {
        match MMU::new(rom) {
            Ok(memory) => Ok(
                MemoryBus {
                    interrupt: Interrupt::new(),
                    timer: Timer::new(),
                    memory,
                    serial: Serial::new(),
                    keys: Joypad::new(),
                    apu: APU::new(),
                    hdma: HDMA::new(),
                    speed: Speed::Regular,
                    speed_shift: false,
                    run_bootrom: false,
                    bootrom: Vec::new(),
                    gpu: GPU::new(),
                },
            ),
            Err(e) => Err(e),
        }
    }

    pub fn read_byte(&self, address: u16) -> (r: u8)
        requires
            self.wf(),
        ensures
            r == self.spec_read(address),
    {
        reveal(MemoryBus::spec_read);
        let a: usize = address as usize;
        if a <= 0x7FFF {
            let boot_end: usize = if self.gpu.is_cgb() {
                0x08FF
            } else {
                0x00FF
            };
            if self.run_bootrom && a <= boot_end {
                if a < self.bootrom.len() {
                    self.bootrom[a]
                } else {
                    0x00
                }
            } else {
                self.memory.cartridge.read_byte(a)
            }
        } else if a <= VRAM_END {
            self.gpu.read_vram(a)
        } else if a <= ERAM_END {
            self.memory.cartridge.read_byte(a)
        } else if a <= ECHO_END {
            self.memory.read_work(a)
        } else if a <= OAM_END {
            self.gpu.oam[a - OAM_BEGIN]
        } else if a <= 0xFEFF {
            0x00
        } else if a == JOYPAD_INPUT {
            self.keys.get_joypad_state()
        } else if a == SERIAL_DATA || a == SERIAL_CONTROL {
            self.serial.read_serial(a)
        } else if a == DIVIDER_REGISTER {
            self.timer.divider_register
        } else if a == TIMA {
            self.timer.tima
        } else if a == TMA {
            self.timer.tma
        } else if a == TAC {
            self.timer.control()
        } else if a == INTERRUPT_FLAG {
            self.interrupt.interrupt_flag
        } else if SOUND_BEGIN <= a && a <= SOUND_END {
            self.apu.read_byte(a)
        } else if (GPU_REGS_BEGIN <= a && a <= GPU_REGS_END) || a == 0xFF4F || (0xFF68 <= a && a
            <= 0xFF6B) {
            self.gpu.read_registers(a)
        } else if a == 0xFF4D {
            let first: u8 = match self.speed {
                Speed::Double => 0x80,
                Speed::Regular => 0x00,
            };
            let second: u8 = if self.speed_shift {
                0x01
            } else {
                0x00
            };
            first + second
        } else if 0xFF51 <= a && a <= 0xFF55 {
            self.hdma.read_hdma(address)
        } else if a == 0xFF70 {
            self.memory.wram_bank as u8
        } else if HRAM_BEGIN <= a && a <= HRAM_END {
            self.memory.read_high(a)
        } else if a == INTERRUPT_ENABLE {
            self.interrupt.interrupt_enable
        } else {
            0x00
        }
    }

    /// Copies 160 bytes from `value * 0x100` on into the sprite table.
    pub fn dma(&mut self, value: u8)
        requires
            old(self).wf(),
        ensures
            *final(self) == old(self).spec_dma(value),
            final(self).wf(),
    {
        let base: u16 = (value as u16) * 0x100;
        let mut i: usize = 0;
        while i < 0xA0
            invariant
                i <= 0xA0,
                base == value * 0x100,
                self.wf(),
                *self == old(self).spec_dma_upto(base, i as nat),
            decreases 0xA0 - i,
        {
            let byte: u8 = self.read_byte(((base as usize + i) % 0x1_0000) as u16);
            self.gpu.write_oam(i, byte);
            i = i + 1;
        }
    }

    pub fn write_byte(&mut self, address: u16, value: u8)
        requires
            old(self).wf(),
        ensures
            *final(self) == old(self).spec_write(address, value),
            final(self).wf(),
    {
        reveal(MemoryBus::spec_write);
        let a: usize = address as usize;
        if a <= 0x7FFF {
            self.memory.cartridge.write_byte(a, value);
        } else if a <= VRAM_END {
            self.gpu.write_vram(a, value);
        } else if a <= ERAM_END {
            self.memory.cartridge.write_byte(a, value);
        } else if a <= ECHO_END {
            self.memory.write_work(a, value);
        } else if a <= OAM_END {
            self.gpu.write_oam(a - OAM_BEGIN, value);
        } else if a <= 0xFEFF {
        } else if a == JOYPAD_INPUT {
            self.keys.set_joypad_state(value);
        } else if a == SERIAL_DATA || a == SERIAL_CONTROL {
            self.serial.write_serial(a, value);
        } else if a == DIVIDER_REGISTER {
            self.timer.divider_register = 0;
        } else if a == TIMA {
            self.timer.tima = value;
        } else if a == TMA {
            self.timer.tma = value;
        } else if a == TAC {
            self.timer.set_control(value);
        } else if a == INTERRUPT_FLAG {
            self.interrupt.interrupt_flag = value;
        } else if SOUND_BEGIN <= a && a <= SOUND_END {
            self.apu.write_byte(a, value);
        } else if a == 0xFF46 {
            self.dma(value);
        } else if (GPU_REGS_BEGIN <= a && a <= GPU_REGS_END) || a == 0xFF4F || (0xFF68 <= a && a
            <= 0xFF6B) {
            self.gpu.write_registers(a, value);
        } else if a == 0xFF4D {
            self.speed_shift = value % 2 == 1;
        } else if 0xFF51 <= a && a <= 0xFF55 {
            self.hdma.write_hdma(address, value);
        } else if a == 0xFF70 {
            self.memory.select_bank(value);
        } else if HRAM_BEGIN <= a && a <= HRAM_END {
            self.memory.write_high(a, value);
        } else if a == INTERRUPT_ENABLE {
            self.interrupt.interrupt_enable = value;
        }
    }

    pub fn read_word(&self, address: u16) -> (r: u16)
        requires
            self.wf(),
        ensures
            r == self.spec_read_word(address),
    {
        let lower: u8 = self.read_byte(address);
        let higher: u8 = self.read_byte(((address as u32 + 1) % 0x1_0000) as u16);
        super::registers::pair(higher, lower)
    }

    pub fn write_word(&mut self, address: u16, word: u16)
        requires
            old(self).wf(),
        ensures
            *final(self) == old(self).spec_write_word(address, word),
            final(self).wf(),
    {
        self.write_byte(address, super::registers::low_byte(word));
        self.write_byte(((address as u32 + 1) % 0x1_0000) as u16, super::registers::high_byte(word));
    }

    /// Carries out a pending change of speed.
    pub fn change_speed(&mut self)
        ensures
            *final(self) == old(self).spec_change_speed(),
            old(self).wf() ==> final(self).wf(),
    {
        if self.speed_shift {
            self.speed = match self.speed {
                Speed::Double => Speed::Regular,
                Speed::Regular => Speed::Double,
            };
        }
        self.speed_shift = false;
    }

    /// The host reports a key pressed: the key is marked and the Joypad
    /// interrupt requested.
    pub fn key_down(&mut self, key: Keys)
        ensures
            *final(self) == (MemoryBus {
                keys: old(self).keys.spec_key_down(key),
                interrupt: old(self).interrupt.spec_request(
                    super::interrupts::Interrupts::Joypad,
                ),
                ..*old(self)
            }),
    {
        self.keys.key_down(key, &mut self.interrupt);
    }

    /// The host reports a key released.
    pub fn key_up(&mut self, key: Keys)
        ensures
            *final(self) == (MemoryBus { keys: old(self).keys.spec_key_up(key), ..*old(self) }),
    {
        self.keys.key_up(key);
    }
}

/// A write to DIV sets it to zero, whatever is written.
pub proof fn lemma_div_write_zeroes(bus: MemoryBus, value: u8)
    ensures
        bus.spec_write(0xFF04, value).timer.divider_register == 0,
        bus.spec_write(0xFF04, value).spec_read(0xFF04) == 0,
{
    reveal(MemoryBus::spec_read);
    reveal(MemoryBus::spec_write);
}

/// The unusable range above the sprite table reads as zero and ignores
/// writes.
pub proof fn lemma_unusable_range(bus: MemoryBus, address: u16, value: u8)
    requires
        0xFEA0 <= address <= 0xFEFF,
    ensures
        bus.spec_read(address) == 0,
        bus.spec_write(address, value) == bus,
{
    reveal(MemoryBus::spec_read);
    reveal(MemoryBus::spec_write);
}

/// Work RAM is seen a second time 0x2000 above: a write at either address
/// is read back at both.
pub proof fn lemma_echo(bus: MemoryBus, address: u16, value: u8)
    requires
        bus.wf(),
        0xC000 <= address <= 0xDDFF,
    ensures
        bus.spec_read((address + 0x2000) as u16) == bus.spec_read(address),
        bus.spec_write(address, value).spec_read((address + 0x2000) as u16) == value,
        bus.spec_write((address + 0x2000) as u16, value).spec_read(address) == value,
        bus.spec_write(address, value).spec_read(address) == value,
{
    reveal(MemoryBus::spec_read);
    reveal(MemoryBus::spec_write);
    super::memory::lemma_work_round_trip(bus.memory, address as usize, value);
}

/// High RAM, and the timer's counter and modulo, read back what was
/// written.
pub proof fn lemma_register_round_trip(bus: MemoryBus, address: u16, value: u8)
    requires
        0xFF80 <= address <= 0xFFFE || address == 0xFF05 || address == 0xFF06 || address
            == 0xFFFF || address == 0xFF0F,
    ensures
        bus.spec_write(address, value).spec_read(address) == value,
{
    reveal(MemoryBus::spec_read);
    reveal(MemoryBus::spec_write);
    broadcast use vstd::array::group_array_axioms;

}

/// Whether an address stands for plain memory: work RAM below its echo, or
/// high RAM.
pub open spec fn spec_plain(address: u16) -> bool {
    0xC000 <= address <= 0xDDFF || 0xFF80 <= address <= 0xFFFE
}

/// A write to plain memory is read back at its address and leaves every
/// other byte of plain memory as it was.
pub proof fn lemma_plain_memory(bus: MemoryBus, address: u16, value: u8, other: u16)
    requires
        bus.wf(),
        spec_plain(address),
        spec_plain(other),
    ensures
        bus.spec_write(address, value).wf(),
        bus.spec_write(address, value).spec_read(other) == (if other == address {
            value
        } else {
            bus.spec_read(other)
        }),
{
    broadcast use vstd::array::group_array_axioms;

    reveal(MemoryBus::spec_read);
    reveal(MemoryBus::spec_write);
}

/// What the bus reads outside the sprite table does not depend on what the
/// sprite table holds.
pub proof fn lemma_read_ignores_sprite_table(bus: MemoryBus, table: [u8; 0xA0], address: u16)
    requires
        !(OAM_BEGIN <= address <= OAM_END),
    ensures
        (MemoryBus { gpu: GPU { oam: table, ..bus.gpu }, ..bus }).spec_read(address)
            == bus.spec_read(address),
{
    reveal(MemoryBus::spec_read);
}

/// While a sprite table transfer is under way, the bytes copied so far are
/// what the bus read at their sources before the transfer, the rest of the
/// table is as it was, and nothing else has changed.
pub proof fn lemma_dma_upto(bus: MemoryBus, value: u8, n: nat, i: int)
    requires
        n <= 0xA0,
        0 <= i < 0xA0,
    ensures
        ({
            let base = (value * 0x100) as u16;
            let after = bus.spec_dma_upto(base, n);
            &&& after == (MemoryBus { gpu: GPU { oam: after.gpu.oam, ..bus.gpu }, ..bus })
            &&& i < n ==> after.gpu.oam[i] == bus.spec_read((base + i) as u16)
            &&& i >= n ==> after.gpu.oam[i] == bus.gpu.oam[i]
        }),
    decreases n,
{
    broadcast use vstd::array::group_array_axioms;

    let base = (value * 0x100) as u16;
    if n > 0 {
        let before = bus.spec_dma_upto(base, (n - 1) as nat);
        let source = (base + n - 1) as u16;
        lemma_dma_upto(bus, value, (n - 1) as nat, i);
        lemma_dma_upto(bus, value, (n - 1) as nat, n - 1);
        if OAM_BEGIN <= source <= OAM_END {
            assert(base == 0xFE00);
            assert(before.spec_read(source) == before.gpu.oam[n - 1]) by {
                reveal(MemoryBus::spec_read);
            }
            assert(bus.spec_read(source) == bus.gpu.oam[n - 1]) by {
                reveal(MemoryBus::spec_read);
            }
        } else {
            lemma_read_ignores_sprite_table(bus, before.gpu.oam, source);
        }
        assert(before.spec_read(source) == bus.spec_read(source));
    }
}

/// After a sprite table transfer every byte of the table is what the bus
/// read at its source before the transfer, and nothing but the table has
/// changed.
pub proof fn lemma_dma_copies(bus: MemoryBus, value: u8, i: int)
    requires
        0 <= i < 0xA0,
    ensures
        bus.spec_dma(value).gpu.oam[i] == bus.spec_read((value * 0x100 + i) as u16),
        bus.spec_dma(value) == (MemoryBus {
            gpu: GPU { oam: bus.spec_dma(value).gpu.oam, ..bus.gpu },
            ..bus
        }),
{
    lemma_dma_upto(bus, value, 0xA0, i);
}

} // verus!
