//! The processor: its state, its access to operands and to the stack, and
//! interrupt service.

use super::bus::MemoryBus;
use super::error::EmulatorError;
use super::gpu::{Hardware, Screen};
use super::instructions::{ArithmeticSource, JumpTest};
use super::joypad::Keys;
use super::registers::{high_byte, low_byte, spec_high, spec_low, FlagsRegister, Registers};
use vstd::prelude::*;

verus! {

/// Cycles that entering an interrupt handler takes.
pub const SERVICE_CYCLES: u32 = 20;

/// Cycles that pass while the processor is halted and nothing is pending.
pub const HALT_CYCLES: u32 = 4;

pub struct CPU {
    pub regs: Registers,
    pub pc: u16,
    pub sp: u16,
    pub bus: MemoryBus,
    /// Instructions begun since EI was executed, while the enable is delayed.
    pub icount: u8,
    pub halted: bool,
    /// Whether the next instruction is to be fetched without the program
    /// counter moving past its opcode.
    pub halt_bug: bool,
    /// Cycles spent in the frame so far.
    pub step_cycles: u32,
}

impl CPU {
    pub open spec fn wf(self) -> bool {
        self.bus.wf()
    }

    /// The address `n` bytes after the program counter, round the sixteen
    /// bits.
    pub open spec fn spec_at(self, n: int) -> u16 {
        ((self.pc + n) % 0x1_0000) as u16
    }

    /// The byte after the opcode.
    pub open spec fn spec_next_byte(self) -> u8 {
        self.bus.spec_read(self.spec_at(1))
    }

    /// The word after the opcode, low byte first.
    pub open spec fn spec_next_word(self) -> u16 {
        self.bus.spec_read_word(self.spec_at(1))
    }

    /// The processor with other flags.
    pub open spec fn spec_with_flags(self, flags: FlagsRegister) -> CPU {
        CPU { regs: Registers { f: flags, ..self.regs }, ..self }
    }

    /// The processor after a write on the bus.
    pub open spec fn spec_write(self, address: u16, value: u8) -> CPU {
        CPU { bus: self.bus.spec_write(address, value), ..self }
    }

    /// The value of an operand: a register, the byte that HL points to, or
    /// the byte after the opcode.
    #[verifier::opaque]
    pub open spec fn spec_source(self, source: ArithmeticSource) -> u8 {
        match source {
            ArithmeticSource::A => self.regs.a,
            ArithmeticSource::B => self.regs.b,
            ArithmeticSource::C => self.regs.c,
            ArithmeticSource::D => self.regs.d,
            ArithmeticSource::E => self.regs.e,
            ArithmeticSource::H => self.regs.h,
            ArithmeticSource::L => self.regs.l,
            ArithmeticSource::HLAddr => self.bus.spec_read(self.regs.spec_hl()),
            ArithmeticSource::U8 => self.spec_next_byte(),
            ArithmeticSource::I8 => self.spec_next_byte(),
        }
    }

    /// The processor with a value put where an operand stands. Nothing can
    /// be put into the byte after the opcode.
    #[verifier::opaque]
    pub open spec fn spec_store(self, source: ArithmeticSource, value: u8) -> CPU {
        match source {
            ArithmeticSource::A => CPU { regs: Registers { a: value, ..self.regs }, ..self },
            ArithmeticSource::B => CPU { regs: Registers { b: value, ..self.regs }, ..self },
            ArithmeticSource::C => CPU { regs: Registers { c: value, ..self.regs }, ..self },
            ArithmeticSource::D => CPU { regs: Registers { d: value, ..self.regs }, ..self },
            ArithmeticSource::E => CPU { regs: Registers { e: value, ..self.regs }, ..self },
            ArithmeticSource::H => CPU { regs: Registers { h: value, ..self.regs }, ..self },
            ArithmeticSource::L => CPU { regs: Registers { l: value, ..self.regs }, ..self },
            ArithmeticSource::HLAddr => self.spec_write(self.regs.spec_hl(), value),
            ArithmeticSource::U8 => self,
            ArithmeticSource::I8 => self,
        }
    }

    /// The processor after a word is pushed: the stack pointer goes down by
    /// two, the high byte is written first, above the low one.
    pub open spec fn spec_push(self, value: u16) -> CPU {
        let first = ((self.sp - 1) % 0x1_0000) as u16;
        let second = ((self.sp - 2) % 0x1_0000) as u16;
        CPU {
            sp: second,
            bus: self.bus.spec_write(first, spec_high(value)).spec_write(second, spec_low(value)),
            ..self
        }
    }

    /// The word on top of the stack.
    pub open spec fn spec_top(self) -> u16 {
        self.bus.spec_read_word(self.sp)
    }

    /// The processor after a word is popped: the stack pointer goes up by
    /// two.
    pub open spec fn spec_pop(self) -> CPU {
        CPU { sp: ((self.sp + 2) % 0x1_0000) as u16, ..self }
    }

    /// Whether a condition holds of the flags.
    pub open spec fn spec_test(self, test: JumpTest) -> bool {
        match test {
            JumpTest::NotZero => !self.regs.f.zero,
            JumpTest::Zero => self.regs.f.zero,
            JumpTest::NotCarry => !self.regs.f.carry,
            JumpTest::Carry => self.regs.f.carry,
            JumpTest::Always => true,
        }
    }

    /// The cycles that servicing takes: 20 where an interrupt is pending and
    /// the master enable is on, else none.
    pub open spec fn spec_service_cycles(self) -> u32 {
        if self.bus.interrupt.spec_lowest_pending() is Some
            && self.bus.interrupt.interrupt_master_enable {
            SERVICE_CYCLES
        } else {
            0
        }
    }

    /// The processor after interrupts have been looked at. A pending
    /// interrupt ends a halt. With the master enable on, the pending source
    /// with the lowest number is taken up: the master enable goes off, the
    /// source's request is cleared, the program counter is pushed, and
    /// execution goes on at the source's vector, 0x40 and eight bytes more
    /// for each source number.
    pub open spec fn spec_service(self) -> CPU {
        match self.bus.interrupt.spec_lowest_pending() {
            None => self,
            Some(k) => {
                if !self.bus.interrupt.interrupt_master_enable {
                    CPU { halted: false, ..self }
                } else {
                    let taken = CPU {
                        halted: false,
                        bus: MemoryBus {
                            interrupt: self.bus.interrupt.spec_acknowledge(k),
                            ..self.bus
                        },
                        ..self
                    };
                    CPU { pc: (0x40 + 8 * k) as u16, ..taken.spec_push(self.pc) }
                }
            },
        }
    }

    /// Tells whether the machine is in order, which every operation on it
    /// asks for and keeps.
    pub fn is_valid(&self) -> (r: bool)
        ensures
            r == self.wf(),
    {
        self.bus.is_valid()
    }

    /// The machine that an image asks for: the colour machine where bit 7 of
    /// header byte 0x143 is set.
    pub open spec fn spec_hardware(rom: Seq<u8>) -> Hardware {
        if rom[0x143] >= 0x80 {
            Hardware::CGB
        } else {
            Hardware::DMG
        }
    }

    /// Whether the machine is as it is made from an image: all registers
    /// zero, every device at power-on, and the machine chosen that the image
    /// asks for.
    pub open spec fn spec_fresh(self, rom: Seq<u8>) -> bool {
        &&& self.regs == (Registers {
            a: 0,
            b: 0,
            c: 0,
            d: 0,
            e: 0,
            f: FlagsRegister { zero: false, subtract: false, half_carry: false, carry: false },
            h: 0,
            l: 0,
        })
        &&& self.pc == 0 && self.sp == 0 && self.icount == 0 && self.step_cycles == 0
        &&& !self.halted && !self.halt_bug
        &&& self.bus.gpu.hardware == Self::spec_hardware(rom)
        &&& (MemoryBus {
            gpu: super::gpu::GPU { hardware: Hardware::DMG, ..self.bus.gpu },
            ..self.bus
        }).spec_fresh(rom)
    }

    /// A machine with all registers zero round a bus made from the image.
    /// The image is refused as the cartridge refuses it.
    pub fn new(rom: Vec<u8>) -> (r: Result<CPU, EmulatorError>)
        ensures
            r is Err <==> !super::cartridge::spec_image_accepted(rom@),
            r is Err ==> r->Err_0 == EmulatorError::InvalidHeader,
            r is Ok ==> r->Ok_0.spec_fresh(rom@) && r->Ok_0.wf(),
    {
        match MemoryBus::new(rom) {
            Ok(bus) => {
                let mut this = CPU {
                    regs: Registers::new(),
                    step_cycles: 0,
                    icount: 0,
                    halted: false,
                    halt_bug: false,
                    bus,
                    pc: 0x0000,
                    sp: 0x0000,
                };
                let flag: u8 = this.bus.memory.cartridge.read_byte(0x143);
                this.bus.gpu.hardware = if flag >= 0x80 {
                    Hardware::CGB
                } else {
                    Hardware::DMG
                };
                Ok(this)
            },
            Err(e) => Err(e),
        }
    }

    /// Tells whether a picture has become ready since this was last asked.
    pub fn check_vblank(&mut self) -> (r: bool)
        ensures
            r == old(self).bus.gpu.vblank,
            !final(self).bus.gpu.vblank,
            final(self).bus.gpu == (super::gpu::GPU { vblank: false, ..old(self).bus.gpu }),
            *final(self) == (CPU {
                bus: MemoryBus { gpu: final(self).bus.gpu, ..old(self).bus },
                ..*old(self)
            }),
    {
        let value: bool = self.bus.gpu.vblank;
        self.bus.gpu.vblank = false;
        value
    }

    /// The picture: 144 rows of 160 pixels of three bytes.
    pub fn framebuffer(&self) -> (r: &Screen)
        ensures
            *r == *self.bus.gpu.screen_data,
    {
        &*self.bus.gpu.screen_data
    }

    /// The host reports a key pressed.
    pub fn key_down(&mut self, key: Keys)
        ensures
            *final(self) == (CPU {
                bus: MemoryBus {
                    keys: old(self).bus.keys.spec_key_down(key),
                    interrupt: old(self).bus.interrupt.spec_request(
                        super::interrupts::Interrupts::Joypad,
                    ),
                    ..old(self).bus
                },
                ..*old(self)
            }),
    {
        self.bus.key_down(key);
    }

    /// The host reports a key released.
    pub fn key_up(&mut self, key: Keys)
        ensures
            *final(self) == (CPU {
                bus: MemoryBus { keys: old(self).bus.keys.spec_key_up(key), ..old(self).bus },
                ..*old(self)
            }),
    {
        self.bus.key_up(key);
    }

    /// The address `n` bytes after the program counter.
    pub fn at(&self, n: u16) -> (r: u16)
        ensures
            r == self.spec_at(n as int),
    {
        ((self.pc as u32 + n as u32) % 0x1_0000) as u16
    }

    pub fn read_next_byte(&self) -> (r: u8)
        requires
            self.wf(),
        ensures
            r == self.spec_next_byte(),
    {
        self.bus.read_byte(self.at(1))
    }

    pub fn read_next_word(&self) -> (r: u16)
        requires
            self.wf(),
        ensures
            r == self.spec_next_word(),
    {
        self.bus.read_word(self.at(1))
    }

    /// Reads an operand.
    pub fn source(&self, source: ArithmeticSource) -> (r: u8)
        requires
            self.wf(),
        ensures
            r == self.spec_source(source),
    {
        reveal(CPU::spec_source);
        match source {
            ArithmeticSource::A => self.regs.a,
            ArithmeticSource::B => self.regs.b,
            ArithmeticSource::C => self.regs.c,
            ArithmeticSource::D => self.regs.d,
            ArithmeticSource::E => self.regs.e,
            ArithmeticSource::H => self.regs.h,
            ArithmeticSource::L => self.regs.l,
            ArithmeticSource::HLAddr => self.bus.read_byte(self.regs.get_hl()),
            ArithmeticSource::U8 => self.read_next_byte(),
            ArithmeticSource::I8 => self.read_next_byte(),
        }
    }

    /// Puts a value where an operand stands.
    pub fn store(&mut self, source: ArithmeticSource, value: u8)
        requires
            old(self).wf(),
        ensures
            *final(self) == old(self).spec_store(source, value),
            final(self).pc == old(self).pc,
            final(self).wf(),
    {
        reveal(CPU::spec_store);
        match source {
            ArithmeticSource::A => self.regs.a = value,
            ArithmeticSource::B => self.regs.b = value,
            ArithmeticSource::C => self.regs.c = value,
            ArithmeticSource::D => self.regs.d = value,
            ArithmeticSource::E => self.regs.e = value,
            ArithmeticSource::H => self.regs.h = value,
            ArithmeticSource::L => self.regs.l = value,
            ArithmeticSource::HLAddr => {
                let address: u16 = self.regs.get_hl();
                self.bus.write_byte(address, value);
            },
            ArithmeticSource::U8 => {},
            ArithmeticSource::I8 => {},
        }
    }

    pub fn push(&mut self, value: u16)
        requires
            old(self).wf(),
        ensures
            *final(self) == old(self).spec_push(value),
            final(self).wf(),
    {
        self.sp = ((self.sp as u32 + 0xFFFF) % 0x1_0000) as u16;
        self.bus.write_byte(self.sp, high_byte(value));
        self.sp = ((self.sp as u32 + 0xFFFF) % 0x1_0000) as u16;
        self.bus.write_byte(self.sp, low_byte(value));
    }

    pub fn pop(&mut self) -> (r: u16)
        requires
            old(self).wf(),
        ensures
            r == old(self).spec_top(),
            *final(self) == old(self).spec_pop(),
            final(self).wf(),
    {
        let value: u16 = self.bus.read_word(self.sp);
        self.sp = ((self.sp as u32 + 2) % 0x1_0000) as u16;
        value
    }

    /// Tests a condition on the flags.
    pub fn test(&self, test: JumpTest) -> (r: bool)
        ensures
            r == self.spec_test(test),
    {
        match test {
            JumpTest::NotZero => !self.regs.f.zero,
            JumpTest::Zero => self.regs.f.zero,
            JumpTest::NotCarry => !self.regs.f.carry,
            JumpTest::Carry => self.regs.f.carry,
            JumpTest::Always => true,
        }
    }

    /// Looks at the interrupts and enters a handler if one is due. Tells the
    /// cycles that took.
    pub fn process_interrupts(&mut self) -> (cycles: u32)
        requires
            old(self).wf(),
        ensures
            *final(self) == old(self).spec_service(),
            cycles == old(self).spec_service_cycles(),
            cycles == 0 || cycles == SERVICE_CYCLES,
            final(self).wf(),
    {
        match self.bus.interrupt.lowest_pending() {
            None => 0,
            Some(k) => {
                self.halted = false;
                if !self.bus.interrupt.interrupt_master_enable {
                    return 0;
                }
                self.bus.interrupt.acknowledge(k);
                let from: u16 = self.pc;
                self.push(from);
                self.pc = 0x40 + 8 * (k as u16);
                SERVICE_CYCLES
            },
        }
    }
}

/// A word that is pushed is the word on top of the stack afterwards, and a
/// pop after the push puts the stack pointer back. This holds where the two
/// bytes below the stack pointer are plain memory.
pub proof fn lemma_push_pop(cpu: CPU, value: u16)
    requires
        cpu.wf(),
        0xC002 <= cpu.sp <= 0xDE00 || 0xFF82 <= cpu.sp <= 0xFFFF,
    ensures
        cpu.spec_push(value).spec_top() == value,
        cpu.spec_push(value).spec_pop().sp == cpu.sp,
        cpu.spec_push(value).wf(),
{
    let first = (cpu.sp - 1) as u16;
    let second = (cpu.sp - 2) as u16;
    let one = cpu.bus.spec_write(first, spec_high(value));
    super::bus::lemma_plain_memory(cpu.bus, first, spec_high(value), first);
    super::bus::lemma_plain_memory(one, second, spec_low(value), first);
    super::bus::lemma_plain_memory(one, second, spec_low(value), second);
}

} // verus!
