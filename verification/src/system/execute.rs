//! What each instruction does: the processor after it, the address of the
//! instruction that follows, and the cycles it takes.

use super::alu::{
    adc, add16, add_sp, and, bit_test, daa, dec, inc, offset, or, rl, rlc, rr, rrc, sbc, sla,
    spec_adc, spec_add, spec_add16, spec_add_sp, spec_and, spec_bit_test, spec_daa, spec_dec,
    spec_inc, spec_offset, spec_or, spec_rl, spec_rlc, spec_rr, spec_rrc, spec_sbc, spec_sla,
    spec_sra, spec_srl, spec_sub, spec_swap, spec_xor, sra, srl, swap, xor,
};
use super::bits::{clear_bit, set_bit, spec_clear_bit, spec_set_bit};
use super::bus::MemoryBus;
use super::cpu::CPU;
use super::instructions::{
    Arithmetic16Target, ArithmeticSource, ArithmeticTarget, IncDecTarget, Instructions, JumpTest,
    LoadByteSource, LoadByteTarget, LoadOtherSource, LoadOtherTarget, LoadType, LoadWordSource,
    LoadWordTarget, RSTTargets, StackTarget,
};
use super::interrupts::Interrupt;
use super::registers::{FlagsRegister, Registers};
use vstd::prelude::*;

verus! {

/// The processor after an instruction, the address of the next one, and the
/// cycles taken.
pub type Outcome = (CPU, u16, u8);

/// The address that a restart goes to.
pub open spec fn spec_vector(target: RSTTargets) -> u16 {
    match target {
        RSTTargets::H00 => 0x00,
        RSTTargets::H08 => 0x08,
        RSTTargets::H10 => 0x10,
        RSTTargets::H18 => 0x18,
        RSTTargets::H20 => 0x20,
        RSTTargets::H28 => 0x28,
        RSTTargets::H30 => 0x30,
        RSTTargets::H38 => 0x38,
    }
}

/// A word one up or one down, round the sixteen bits.
pub open spec fn spec_word_step(value: u16, up: bool) -> u16 {
    if up {
        ((value + 1) % 0x1_0000) as u16
    } else {
        ((value - 1) % 0x1_0000) as u16
    }
}

pub fn word_step(value: u16, up: bool) -> (r: u16)
    ensures
        r == spec_word_step(value, up),
{
    if up {
        ((value as u32 + 1) % 0x1_0000) as u16
    } else {
        ((value as u32 + 0xFFFF) % 0x1_0000) as u16
    }
}

/// The byte operand that an increment or decrement works on, if it works
/// on a byte.
pub open spec fn spec_byte_target(target: IncDecTarget) -> Option<ArithmeticSource> {
    match target {
        IncDecTarget::A => Some(ArithmeticSource::A),
        IncDecTarget::B => Some(ArithmeticSource::B),
        IncDecTarget::C => Some(ArithmeticSource::C),
        IncDecTarget::D => Some(ArithmeticSource::D),
        IncDecTarget::E => Some(ArithmeticSource::E),
        IncDecTarget::H => Some(ArithmeticSource::H),
        IncDecTarget::L => Some(ArithmeticSource::L),
        IncDecTarget::HLAddr => Some(ArithmeticSource::HLAddr),
        IncDecTarget::HL => None,
        IncDecTarget::BC => None,
        IncDecTarget::DE => None,
        IncDecTarget::SP => None,
    }
}

pub fn byte_target(target: IncDecTarget) -> (r: Option<ArithmeticSource>)
    ensures
        r == spec_byte_target(target),
{
    match target {
        IncDecTarget::A => Some(ArithmeticSource::A),
        IncDecTarget::B => Some(ArithmeticSource::B),
        IncDecTarget::C => Some(ArithmeticSource::C),
        IncDecTarget::D => Some(ArithmeticSource::D),
        IncDecTarget::E => Some(ArithmeticSource::E),
        IncDecTarget::H => Some(ArithmeticSource::H),
        IncDecTarget::L => Some(ArithmeticSource::L),
        IncDecTarget::HLAddr => Some(ArithmeticSource::HLAddr),
        IncDecTarget::HL => None,
        IncDecTarget::BC => None,
        IncDecTarget::DE => None,
        IncDecTarget::SP => None,
    }
}

impl CPU {
    /// An instruction that does nothing: one byte, four cycles. Forms that no
    /// opcode stands for are carried out as this.
    pub open spec fn spec_idle(self) -> Outcome {
        (self, self.spec_at(1), 4)
    }

    /// Length and cycles of an arithmetic instruction on A, by its operand.
    pub open spec fn spec_operand_timing(self, source: ArithmeticSource) -> (u16, u8) {
        match source {
            ArithmeticSource::U8 => (self.spec_at(2), 8),
            ArithmeticSource::HLAddr => (self.spec_at(1), 8),
            _ => (self.spec_at(1), 4),
        }
    }

    /// An arithmetic instruction that leaves its result in A.
    #[verifier::opaque]
    pub open spec fn spec_accumulate(
        self,
        result: (u8, FlagsRegister),
        source: ArithmeticSource,
    ) -> Outcome {
        let timing = self.spec_operand_timing(source);
        (
            CPU { regs: Registers { a: result.0, f: result.1, ..self.regs }, ..self },
            timing.0,
            timing.1,
        )
    }

    /// A comparison: the flags of a subtraction, A kept.
    #[verifier::opaque]
    pub open spec fn spec_compare(self, source: ArithmeticSource) -> Outcome {
        let timing = self.spec_operand_timing(source);
        (
            self.spec_with_flags(spec_sub(self.regs.a, self.spec_source(source)).1),
            timing.0,
            timing.1,
        )
    }

    /// One of the four rotates of A without prefix: as the prefixed rotate,
    /// but Z is cleared.
    #[verifier::opaque]
    pub open spec fn spec_rotate_a(self, result: (u8, FlagsRegister)) -> Outcome {
        (
            CPU {
                regs: Registers {
                    a: result.0,
                    f: FlagsRegister { zero: false, ..result.1 },
                    ..self.regs
                },
                ..self
            },
            self.spec_at(1),
            4,
        )
    }

    /// Cycles of a prefixed instruction that writes its operand back.
    pub open spec fn spec_prefixed_cycles(source: ArithmeticSource) -> u8 {
        if source == ArithmeticSource::HLAddr {
            16
        } else {
            8
        }
    }

    /// A prefixed rotate, shift or swap: the result goes back to the
    /// operand.
    #[verifier::opaque]
    pub open spec fn spec_shift(
        self,
        source: ArithmeticSource,
        result: (u8, FlagsRegister),
    ) -> Outcome {
        (
            self.spec_store(source, result.0).spec_with_flags(result.1),
            self.spec_at(2),
            Self::spec_prefixed_cycles(source),
        )
    }

    /// A test of bit `k` of the operand.
    #[verifier::opaque]
    pub open spec fn spec_bit_op(self, k: u8, source: ArithmeticSource) -> Outcome {
        (
            self.spec_with_flags(spec_bit_test(self.spec_source(source), k, self.regs.f)),
            self.spec_at(2),
            if source == ArithmeticSource::HLAddr {
                12
            } else {
                8
            },
        )
    }

    /// Bit `k` of the operand set or cleared; the flags are kept.
    #[verifier::opaque]
    pub open spec fn spec_change_bit(self, k: u8, source: ArithmeticSource, set: bool) -> Outcome {
        let value = self.spec_source(source);
        (
            self.spec_store(
                source,
                if set {
                    spec_set_bit(value, k as int)
                } else {
                    spec_clear_bit(value, k as int)
                },
            ),
            self.spec_at(2),
            Self::spec_prefixed_cycles(source),
        )
    }

    /// An increment or decrement. On a byte it sets Z, N and H; on a
    /// register pair or the stack pointer it sets no flag.
    #[verifier::opaque]
    pub open spec fn spec_inc_dec(self, target: IncDecTarget, up: bool) -> Outcome {
        match spec_byte_target(target) {
            Some(source) => {
                let value = self.spec_source(source);
                let result = if up {
                    spec_inc(value, self.regs.f)
                } else {
                    spec_dec(value, self.regs.f)
                };
                (
                    self.spec_store(source, result.0).spec_with_flags(result.1),
                    self.spec_at(1),
                    if source == ArithmeticSource::HLAddr {
                        12
                    } else {
                        4
                    },
                )
            },
            None => (
                match target {
                    IncDecTarget::BC => CPU {
                        regs: self.regs.spec_set_bc(spec_word_step(self.regs.spec_bc(), up)),
                        ..self
                    },
                    IncDecTarget::DE => CPU {
                        regs: self.regs.spec_set_de(spec_word_step(self.regs.spec_de(), up)),
                        ..self
                    },
                    IncDecTarget::HL => CPU {
                        regs: self.regs.spec_set_hl(spec_word_step(self.regs.spec_hl(), up)),
                        ..self
                    },
                    _ => CPU { sp: spec_word_step(self.sp, up), ..self },
                },
                self.spec_at(1),
                8,
            ),
        }
    }

    /// The word that a sixteen-bit addition adds to HL.
    pub open spec fn spec_word_operand(self, target: Arithmetic16Target) -> u16 {
        match target {
            Arithmetic16Target::BC => self.regs.spec_bc(),
            Arithmetic16Target::DE => self.regs.spec_de(),
            Arithmetic16Target::HL => self.regs.spec_hl(),
            Arithmetic16Target::SP => self.sp,
        }
    }

    /// A register pair or the stack pointer added to HL.
    #[verifier::opaque]
    pub open spec fn spec_add_hl(self, target: Arithmetic16Target) -> Outcome {
        let result = spec_add16(self.regs.spec_hl(), self.spec_word_operand(target), self.regs.f);
        (
            CPU { regs: Registers { f: result.1, ..self.regs.spec_set_hl(result.0) }, ..self },
            self.spec_at(1),
            8,
        )
    }

    /// The signed byte after the opcode added to the stack pointer.
    #[verifier::opaque]
    pub open spec fn spec_add_to_sp(self) -> Outcome {
        let result = spec_add_sp(self.sp, self.spec_next_byte());
        (CPU { sp: result.0, ..self }.spec_with_flags(result.1), self.spec_at(2), 16)
    }

    /// The byte that a load reads.
    pub open spec fn spec_load_value(self, source: LoadByteSource) -> u8 {
        match source {
            LoadByteSource::A => self.regs.a,
            LoadByteSource::B => self.regs.b,
            LoadByteSource::C => self.regs.c,
            LoadByteSource::D => self.regs.d,
            LoadByteSource::E => self.regs.e,
            LoadByteSource::H => self.regs.h,
            LoadByteSource::L => self.regs.l,
            LoadByteSource::D8 => self.spec_next_byte(),
            LoadByteSource::HL => self.bus.spec_read(self.regs.spec_hl()),
            LoadByteSource::HLI => self.bus.spec_read(self.regs.spec_hl()),
            LoadByteSource::HLD => self.bus.spec_read(self.regs.spec_hl()),
            LoadByteSource::A16 => self.bus.spec_read(self.spec_next_word()),
            LoadByteSource::BC => self.bus.spec_read(self.regs.spec_bc()),
            LoadByteSource::DE => self.bus.spec_read(self.regs.spec_de()),
        }
    }

    /// The processor with HL moved one up or down.
    pub open spec fn spec_step_hl(self, up: bool) -> CPU {
        CPU { regs: self.regs.spec_set_hl(spec_word_step(self.regs.spec_hl(), up)), ..self }
    }

    /// The processor after the source of a load has been read: HL has moved
    /// where the source asks for it.
    pub open spec fn spec_after_source(self, source: LoadByteSource) -> CPU {
        match source {
            LoadByteSource::HLI => self.spec_step_hl(true),
            LoadByteSource::HLD => self.spec_step_hl(false),
            _ => self,
        }
    }

    /// The processor after a load has put its byte into the target.
    pub open spec fn spec_put(self, target: LoadByteTarget, value: u8) -> CPU {
        match target {
            LoadByteTarget::A => CPU { regs: Registers { a: value, ..self.regs }, ..self },
            LoadByteTarget::B => CPU { regs: Registers { b: value, ..self.regs }, ..self },
            LoadByteTarget::C => CPU { regs: Registers { c: value, ..self.regs }, ..self },
            LoadByteTarget::D => CPU { regs: Registers { d: value, ..self.regs }, ..self },
            LoadByteTarget::E => CPU { regs: Registers { e: value, ..self.regs }, ..self },
            LoadByteTarget::H => CPU { regs: Registers { h: value, ..self.regs }, ..self },
            LoadByteTarget::L => CPU { regs: Registers { l: value, ..self.regs }, ..self },
            LoadByteTarget::HL => self.spec_write(self.regs.spec_hl(), value),
            LoadByteTarget::HLI => self.spec_write(self.regs.spec_hl(), value).spec_step_hl(true),
            LoadByteTarget::HLD => self.spec_write(self.regs.spec_hl(), value).spec_step_hl(false),
            LoadByteTarget::BC => self.spec_write(self.regs.spec_bc(), value),
            LoadByteTarget::DE => self.spec_write(self.regs.spec_de(), value),
            LoadByteTarget::A16 => self.spec_write(self.spec_next_word(), value),
        }
    }

    /// Length and cycles of a byte load.
    pub open spec fn spec_load_timing(
        self,
        target: LoadByteTarget,
        source: LoadByteSource,
    ) -> (u16, u8) {
        if target == LoadByteTarget::A16 || source == LoadByteSource::A16 {
            (self.spec_at(3), 16)
        } else if source == LoadByteSource::D8 {
            (
                self.spec_at(2),
                if target == LoadByteTarget::HL {
                    12
                } else {
                    8
                },
            )
        } else if source == LoadByteSource::HL || source == LoadByteSource::HLI || source
            == LoadByteSource::HLD || source == LoadByteSource::BC || source == LoadByteSource::DE
            || target == LoadByteTarget::HL || target == LoadByteTarget::HLI || target
            == LoadByteTarget::HLD || target == LoadByteTarget::BC || target == LoadByteTarget::DE {
            (self.spec_at(1), 8)
        } else {
            (self.spec_at(1), 4)
        }
    }

    /// A byte load.
    #[verifier::opaque]
    pub open spec fn spec_load_byte(self, target: LoadByteTarget, source: LoadByteSource) -> Outcome {
        let timing = self.spec_load_timing(target, source);
        (
            self.spec_after_source(source).spec_put(target, self.spec_load_value(source)),
            timing.0,
            timing.1,
        )
    }

    /// The word that a word load reads. The signed byte after the opcode
    /// counts as the word of the same value.
    pub open spec fn spec_word_value(self, source: LoadWordSource) -> u16 {
        match source {
            LoadWordSource::D16 => self.spec_next_word(),
            LoadWordSource::SP => self.sp,
            LoadWordSource::HL => self.regs.spec_hl(),
            LoadWordSource::SPr8 => spec_offset(0, self.spec_next_byte()),
        }
    }

    /// A word load. Into a memory address the low byte is written first.
    /// With the stack pointer and a signed byte as source, HL gets their sum
    /// and the flags are set as by the addition to the stack pointer.
    #[verifier::opaque]
    pub open spec fn spec_load_word(self, target: LoadWordTarget, source: LoadWordSource) -> Outcome {
        let value = self.spec_word_value(source);
        let timing: (u16, u8) = match source {
            LoadWordSource::HL => (self.spec_at(1), 8),
            LoadWordSource::SPr8 => (self.spec_at(2), 12),
            LoadWordSource::D16 => (self.spec_at(3), 12),
            LoadWordSource::SP => (self.spec_at(3), 20),
        };
        (
            match target {
                LoadWordTarget::BC => CPU { regs: self.regs.spec_set_bc(value), ..self },
                LoadWordTarget::DE => CPU { regs: self.regs.spec_set_de(value), ..self },
                LoadWordTarget::SP => CPU { sp: value, ..self },
                LoadWordTarget::HL => if source == LoadWordSource::SPr8 {
                    let result = spec_add_sp(self.sp, self.spec_next_byte());
                    CPU {
                        regs: Registers { f: result.1, ..self.regs.spec_set_hl(result.0) },
                        ..self
                    }
                } else {
                    CPU { regs: self.regs.spec_set_hl(value), ..self }
                },
                LoadWordTarget::A16 => CPU {
                    bus: self.bus.spec_write_word(self.spec_next_word(), value),
                    ..self
                },
            },
            timing.0,
            timing.1,
        )
    }

    /// An address in the last page of memory.
    pub open spec fn spec_high_address(low: u8) -> u16 {
        (0xFF00 + low) as u16
    }

    /// A load between A and the last page of memory, addressed by the byte
    /// after the opcode or by C.
    #[verifier::opaque]
    pub open spec fn spec_load_high(self, target: LoadOtherTarget, source: LoadOtherSource) -> Outcome {
        if target == LoadOtherTarget::A8 && source == LoadOtherSource::A {
            (
                self.spec_write(Self::spec_high_address(self.spec_next_byte()), self.regs.a),
                self.spec_at(2),
                12,
            )
        } else if target == LoadOtherTarget::CAddress && source == LoadOtherSource::A {
            (
                self.spec_write(Self::spec_high_address(self.regs.c), self.regs.a),
                self.spec_at(1),
                8,
            )
        } else if target == LoadOtherTarget::A && source == LoadOtherSource::A8 {
            (
                CPU {
                    regs: Registers {
                        a: self.bus.spec_read(Self::spec_high_address(self.spec_next_byte())),
                        ..self.regs
                    },
                    ..self
                },
                self.spec_at(2),
                12,
            )
        } else if target == LoadOtherTarget::A && source == LoadOtherSource::CAddress {
            (
                CPU {
                    regs: Registers {
                        a: self.bus.spec_read(Self::spec_high_address(self.regs.c)),
                        ..self.regs
                    },
                    ..self
                },
                self.spec_at(1),
                8,
            )
        } else {
            self.spec_idle()
        }
    }

    /// A relative jump: where the condition holds, to the address after the
    /// instruction moved by the signed byte after the opcode.
    #[verifier::opaque]
    pub open spec fn spec_jump_relative(self, test: JumpTest) -> Outcome {
        if self.spec_test(test) {
            (self, spec_offset(self.spec_at(2), self.spec_next_byte()), 12)
        } else {
            (self, self.spec_at(2), 8)
        }
    }

    /// A jump: where the condition holds, to the word after the opcode.
    #[verifier::opaque]
    pub open spec fn spec_jump(self, test: JumpTest) -> Outcome {
        if self.spec_test(test) {
            (self, self.spec_next_word(), 16)
        } else {
            (self, self.spec_at(3), 12)
        }
    }

    /// A call: where the condition holds, the address after the instruction
    /// is pushed and execution goes on at the word after the opcode.
    #[verifier::opaque]
    pub open spec fn spec_call(self, test: JumpTest) -> Outcome {
        if self.spec_test(test) {
            let pushed = self.spec_push(self.spec_at(3));
            (pushed, pushed.spec_next_word(), 24)
        } else {
            (self, self.spec_at(3), 12)
        }
    }

    /// A return: where the condition holds, execution goes on at the word
    /// popped.
    #[verifier::opaque]
    pub open spec fn spec_return(self, test: JumpTest) -> Outcome {
        if self.spec_test(test) {
            (
                self.spec_pop(),
                self.spec_top(),
                if test == JumpTest::Always {
                    16
                } else {
                    20
                },
            )
        } else {
            (self, self.spec_at(1), 8)
        }
    }

    /// A return that turns the master enable on at once.
    #[verifier::opaque]
    pub open spec fn spec_return_enable(self) -> Outcome {
        (
            CPU {
                bus: MemoryBus {
                    interrupt: Interrupt { interrupt_master_enable: true, ..self.bus.interrupt },
                    ..self.bus
                },
                ..self.spec_pop()
            },
            self.spec_top(),
            16,
        )
    }

    /// A restart: a call of one byte to a fixed address.
    #[verifier::opaque]
    pub open spec fn spec_restart(self, target: RSTTargets) -> Outcome {
        (self.spec_push(self.spec_at(1)), spec_vector(target), 16)
    }

    /// The word that a push takes from a register pair.
    pub open spec fn spec_stack_value(self, target: StackTarget) -> u16 {
        match target {
            StackTarget::BC => self.regs.spec_bc(),
            StackTarget::DE => self.regs.spec_de(),
            StackTarget::HL => self.regs.spec_hl(),
            StackTarget::AF => self.regs.spec_af(),
        }
    }

    #[verifier::opaque]
    pub open spec fn spec_push_pair(self, target: StackTarget) -> Outcome {
        (self.spec_push(self.spec_stack_value(target)), self.spec_at(1), 16)
    }

    /// A pop into a register pair; the low nibble of F stays zero.
    #[verifier::opaque]
    pub open spec fn spec_pop_pair(self, target: StackTarget) -> Outcome {
        let value = self.spec_top();
        let popped = self.spec_pop();
        (
            CPU {
                regs: match target {
                    StackTarget::BC => self.regs.spec_set_bc(value),
                    StackTarget::DE => self.regs.spec_set_de(value),
                    StackTarget::HL => self.regs.spec_set_hl(value),
                    StackTarget::AF => self.regs.spec_set_af(value),
                },
                ..popped
            },
            self.spec_at(1),
            12,
        )
    }

    /// HALT: the processor halts. With the master enable off and an
    /// interrupt pending, the fetch that follows does not move the program
    /// counter past its opcode.
    #[verifier::opaque]
    pub open spec fn spec_halt(self) -> Outcome {
        (
            CPU {
                halted: true,
                halt_bug: !self.bus.interrupt.interrupt_master_enable
                    && self.bus.interrupt.spec_lowest_pending() is Some,
                ..self
            },
            self.spec_at(1),
            4,
        )
    }

    /// The processor with the master enable and its delay latch set as
    /// given.
    pub open spec fn spec_enable(self, master: bool, delay: bool) -> CPU {
        CPU {
            bus: MemoryBus {
                interrupt: Interrupt {
                    interrupt_master_enable: master,
                    interrupt_delay: delay,
                    ..self.bus.interrupt
                },
                ..self.bus
            },
            ..self
        }
    }

    /// What an instruction on A and the flags alone, or on nothing, does.
    #[verifier::opaque]
    pub open spec fn spec_execute_simple(self, instruction: Instructions) -> Outcome {
        let a = self.regs.a;
        let f = self.regs.f;
        match instruction {
            Instructions::HALT => self.spec_halt(),
            Instructions::STOP => (
                CPU { bus: self.bus.spec_change_speed(), ..self },
                self.spec_at(2),
                4,
            ),
            Instructions::DI => (self.spec_enable(false, false), self.spec_at(1), 4),
            Instructions::EI => (
                CPU {
                    icount: 0,
                    ..self.spec_enable(self.bus.interrupt.interrupt_master_enable, true)
                },
                self.spec_at(1),
                4,
            ),
            Instructions::DAA => self.spec_accumulate(spec_daa(a, f), ArithmeticSource::A),
            Instructions::CPL => (
                CPU {
                    regs: Registers {
                        a: !a,
                        f: FlagsRegister { subtract: true, half_carry: true, ..f },
                        ..self.regs
                    },
                    ..self
                },
                self.spec_at(1),
                4,
            ),
            Instructions::CCF => (
                self.spec_with_flags(
                    FlagsRegister { subtract: false, half_carry: false, carry: !f.carry, ..f },
                ),
                self.spec_at(1),
                4,
            ),
            Instructions::SCF => (
                self.spec_with_flags(
                    FlagsRegister { subtract: false, half_carry: false, carry: true, ..f },
                ),
                self.spec_at(1),
                4,
            ),
            Instructions::RLCA => self.spec_rotate_a(spec_rlc(a)),
            Instructions::RRCA => self.spec_rotate_a(spec_rrc(a)),
            Instructions::RLA => self.spec_rotate_a(spec_rl(a, f.carry)),
            Instructions::RRA => self.spec_rotate_a(spec_rr(a, f.carry)),
            Instructions::JPHL => (self, self.regs.spec_hl(), 4),
            _ => self.spec_idle(),
        }
    }

    /// What an increment, a decrement or a sixteen-bit addition does.
    #[verifier::opaque]
    pub open spec fn spec_execute_counting(self, instruction: Instructions) -> Outcome {
        match instruction {
            Instructions::INC(target) => self.spec_inc_dec(target, true),
            Instructions::DEC(target) => self.spec_inc_dec(target, false),
            Instructions::ADD16(target) => self.spec_add_hl(target),
            _ => self.spec_idle(),
        }
    }

    /// What an addition or a subtraction does. An addition to the stack
    /// pointer of anything but the signed byte after the opcode, which no
    /// opcode stands for, does nothing.
    #[verifier::opaque]
    pub open spec fn spec_execute_arithmetic(self, instruction: Instructions) -> Outcome {
        let a = self.regs.a;
        let f = self.regs.f;
        match instruction {
            Instructions::ADD(target, source) => if source == ArithmeticSource::I8 {
                self.spec_add_to_sp()
            } else if target == ArithmeticTarget::A {
                self.spec_accumulate(spec_add(a, self.spec_source(source)), source)
            } else {
                self.spec_idle()
            },
            Instructions::ADC(source) => self.spec_accumulate(
                spec_adc(a, self.spec_source(source), f.carry),
                source,
            ),
            Instructions::SUB(source) => self.spec_accumulate(
                spec_sub(a, self.spec_source(source)),
                source,
            ),
            Instructions::SBC(source) => self.spec_accumulate(
                spec_sbc(a, self.spec_source(source), f.carry),
                source,
            ),
            _ => self.spec_idle(),
        }
    }

    /// What a logical operation or a comparison does.
    #[verifier::opaque]
    pub open spec fn spec_execute_logic(self, instruction: Instructions) -> Outcome {
        let a = self.regs.a;
        match instruction {
            Instructions::AND(source) => self.spec_accumulate(
                spec_and(a, self.spec_source(source)),
                source,
            ),
            Instructions::XOR(source) => self.spec_accumulate(
                spec_xor(a, self.spec_source(source)),
                source,
            ),
            Instructions::OR(source) => self.spec_accumulate(
                spec_or(a, self.spec_source(source)),
                source,
            ),
            Instructions::CP(source) => self.spec_compare(source),
            _ => self.spec_idle(),
        }
    }

    /// What a load, a push or a pop does.
    #[verifier::opaque]
    pub open spec fn spec_execute_load(self, instruction: Instructions) -> Outcome {
        match instruction {
            Instructions::LD(LoadType::Byte(target, source)) => self.spec_load_byte(target, source),
            Instructions::LD(LoadType::Word(target, source)) => self.spec_load_word(target, source),
            Instructions::LDH(LoadType::Other(target, source)) => self.spec_load_high(
                target,
                source,
            ),
            Instructions::PUSH(target) => self.spec_push_pair(target),
            Instructions::POP(target) => self.spec_pop_pair(target),
            _ => self.spec_idle(),
        }
    }

    /// What a jump, a call, a return or a restart does.
    #[verifier::opaque]
    pub open spec fn spec_execute_control(self, instruction: Instructions) -> Outcome {
        match instruction {
            Instructions::JR(test) => self.spec_jump_relative(test),
            Instructions::JP(test) => self.spec_jump(test),
            Instructions::CALL(test) => self.spec_call(test),
            Instructions::RET(test) => self.spec_return(test),
            Instructions::RETI => self.spec_return_enable(),
            Instructions::RST(target) => self.spec_restart(target),
            _ => self.spec_idle(),
        }
    }

    /// What an instruction that follows the prefix does.
    #[verifier::opaque]
    pub open spec fn spec_execute_prefixed(self, instruction: Instructions) -> Outcome {
        let f = self.regs.f;
        match instruction {
            Instructions::RLC(source) => self.spec_shift(source, spec_rlc(self.spec_source(source))),
            Instructions::RRC(source) => self.spec_shift(source, spec_rrc(self.spec_source(source))),
            Instructions::RL(source) => self.spec_shift(
                source,
                spec_rl(self.spec_source(source), f.carry),
            ),
            Instructions::RR(source) => self.spec_shift(
                source,
                spec_rr(self.spec_source(source), f.carry),
            ),
            Instructions::SLA(source) => self.spec_shift(source, spec_sla(self.spec_source(source))),
            Instructions::SRA(source) => self.spec_shift(source, spec_sra(self.spec_source(source))),
            Instructions::SWAP(source) => self.spec_shift(
                source,
                spec_swap(self.spec_source(source)),
            ),
            Instructions::SRL(source) => self.spec_shift(source, spec_srl(self.spec_source(source))),
            Instructions::BIT(k, source) => self.spec_bit_op(k, source),
            Instructions::RES(k, source) => self.spec_change_bit(k, source, false),
            Instructions::SET(k, source) => self.spec_change_bit(k, source, true),
            _ => self.spec_idle(),
        }
    }

    /// What an instruction does. A load of a form that no opcode stands for
    /// does nothing, as NOP.
    pub open spec fn spec_execute(self, instruction: Instructions) -> Outcome {
        if spec_is_simple(instruction) {
            self.spec_execute_simple(instruction)
        } else if spec_is_counting(instruction) {
            self.spec_execute_counting(instruction)
        } else if spec_is_arithmetic(instruction) {
            self.spec_execute_arithmetic(instruction)
        } else if spec_is_logic(instruction) {
            self.spec_execute_logic(instruction)
        } else if spec_is_load(instruction) {
            self.spec_execute_load(instruction)
        } else if spec_is_control(instruction) {
            self.spec_execute_control(instruction)
        } else if spec_is_prefixed(instruction) {
            self.spec_execute_prefixed(instruction)
        } else {
            self.spec_idle()
        }
    }

    pub fn operand_timing(&self, source: ArithmeticSource) -> (r: (u16, u8))
        ensures
            r == self.spec_operand_timing(source),
    {
        match source {
            ArithmeticSource::U8 => (self.at(2), 8),
            ArithmeticSource::HLAddr => (self.at(1), 8),
            _ => (self.at(1), 4),
        }
    }

    pub fn accumulate(&mut self, result: (u8, FlagsRegister), source: ArithmeticSource) -> (r: (
        u16,
        u8,
    ))
        ensures
            (*final(self), r.0, r.1) == old(self).spec_accumulate(result, source),
            final(self).bus == old(self).bus,
    {
        reveal(CPU::spec_accumulate);
        self.regs.a = result.0;
        self.regs.f = result.1;
        self.operand_timing(source)
    }

    pub fn compare(&mut self, source: ArithmeticSource) -> (r: (u16, u8))
        requires
            old(self).wf(),
        ensures
            (*final(self), r.0, r.1) == old(self).spec_compare(source),
            final(self).wf(),
    {
        reveal(CPU::spec_compare);
        let result: (u8, FlagsRegister) = crate::system::alu::sub(
            self.regs.a,
            self.source(source),
        );
        self.regs.f = result.1;
        self.operand_timing(source)
    }

    pub fn rotate_a(&mut self, result: (u8, FlagsRegister)) -> (r: (u16, u8))
        ensures
            (*final(self), r.0, r.1) == old(self).spec_rotate_a(result),
            final(self).bus == old(self).bus,
    {
        reveal(CPU::spec_rotate_a);
        self.regs.a = result.0;
        self.regs.f = FlagsRegister {
            zero: false,
            subtract: result.1.subtract,
            half_carry: result.1.half_carry,
            carry: result.1.carry,
        };
        (self.at(1), 4)
    }

    pub fn prefixed_cycles(source: ArithmeticSource) -> (r: u8)
        ensures
            r == Self::spec_prefixed_cycles(source),
    {
        match source {
            ArithmeticSource::HLAddr => 16,
            _ => 8,
        }
    }

    pub fn shift(&mut self, source: ArithmeticSource, result: (u8, FlagsRegister)) -> (r: (u16, u8))
        requires
            old(self).wf(),
        ensures
            (*final(self), r.0, r.1) == old(self).spec_shift(source, result),
            final(self).wf(),
    {
        reveal(CPU::spec_shift);
        self.store(source, result.0);
        self.regs.f = result.1;
        (self.at(2), Self::prefixed_cycles(source))
    }

    pub fn bit_op(&mut self, k: u8, source: ArithmeticSource) -> (r: (u16, u8))
        requires
            old(self).wf(),
        ensures
            (*final(self), r.0, r.1) == old(self).spec_bit_op(k, source),
            final(self).wf(),
    {
        reveal(CPU::spec_bit_op);
        let value: u8 = self.source(source);
        self.regs.f = bit_test(value, k, self.regs.f);
        let cycles: u8 = match source {
            ArithmeticSource::HLAddr => 12,
            _ => 8,
        };
        (self.at(2), cycles)
    }

    pub fn change_bit(&mut self, k: u8, source: ArithmeticSource, set: bool) -> (r: (u16, u8))
        requires
            old(self).wf(),
        ensures
            (*final(self), r.0, r.1) == old(self).spec_change_bit(k, source, set),
            final(self).wf(),
    {
        reveal(CPU::spec_change_bit);
        let value: u8 = self.source(source);
        let changed: u8 = if set {
            set_bit(value, k)
        } else {
            clear_bit(value, k)
        };
        self.store(source, changed);
        (self.at(2), Self::prefixed_cycles(source))
    }

    pub fn inc_dec(&mut self, target: IncDecTarget, up: bool) -> (r: (u16, u8))
        requires
            old(self).wf(),
        ensures
            (*final(self), r.0, r.1) == old(self).spec_inc_dec(target, up),
            final(self).wf(),
    {
        reveal(CPU::spec_inc_dec);
        match byte_target(target) {
            Some(source) => {
                let value: u8 = self.source(source);
                let result: (u8, FlagsRegister) = if up {
                    inc(value, self.regs.f)
                } else {
                    dec(value, self.regs.f)
                };
                self.store(source, result.0);
                self.regs.f = result.1;
                let cycles: u8 = match source {
                    ArithmeticSource::HLAddr => 12,
                    _ => 4,
                };
                (self.at(1), cycles)
            },
            None => {
                match target {
                    IncDecTarget::BC => {
                        let value: u16 = word_step(self.regs.get_bc(), up);
                        self.regs.set_bc(value);
                    },
                    IncDecTarget::DE => {
                        let value: u16 = word_step(self.regs.get_de(), up);
                        self.regs.set_de(value);
                    },
                    IncDecTarget::HL => {
                        let value: u16 = word_step(self.regs.get_hl(), up);
                        self.regs.set_hl(value);
                    },
                    _ => {
                        self.sp = word_step(self.sp, up);
                    },
                }
                (self.at(1), 8)
            },
        }
    }

    pub fn add_hl(&mut self, target: Arithmetic16Target) -> (r: (u16, u8))
        ensures
            (*final(self), r.0, r.1) == old(self).spec_add_hl(target),
            final(self).bus == old(self).bus,
    {
        reveal(CPU::spec_add_hl);
        let value: u16 = match target {
            Arithmetic16Target::BC => self.regs.get_bc(),
            Arithmetic16Target::DE => self.regs.get_de(),
            Arithmetic16Target::HL => self.regs.get_hl(),
            Arithmetic16Target::SP => self.sp,
        };
        let result: (u16, FlagsRegister) = add16(self.regs.get_hl(), value, self.regs.f);
        self.regs.set_hl(result.0);
        self.regs.f = result.1;
        (self.at(1), 8)
    }

    pub fn add_to_sp(&mut self) -> (r: (u16, u8))
        requires
            old(self).wf(),
        ensures
            (*final(self), r.0, r.1) == old(self).spec_add_to_sp(),
            final(self).wf(),
    {
        reveal(CPU::spec_add_to_sp);
        let byte: u8 = self.read_next_byte();
        let result: (u16, FlagsRegister) = add_sp(self.sp, byte);
        self.sp = result.0;
        self.regs.f = result.1;
        (self.at(2), 16)
    }

    pub fn step_hl(&mut self, up: bool)
        ensures
            *final(self) == old(self).spec_step_hl(up),
            final(self).bus == old(self).bus,
    {
        let value: u16 = word_step(self.regs.get_hl(), up);
        self.regs.set_hl(value);
    }

    pub fn load_value(&self, source: LoadByteSource) -> (r: u8)
        requires
            self.wf(),
        ensures
            r == self.spec_load_value(source),
    {
        match source {
            LoadByteSource::A => self.regs.a,
            LoadByteSource::B => self.regs.b,
            LoadByteSource::C => self.regs.c,
            LoadByteSource::D => self.regs.d,
            LoadByteSource::E => self.regs.e,
            LoadByteSource::H => self.regs.h,
            LoadByteSource::L => self.regs.l,
            LoadByteSource::D8 => self.read_next_byte(),
            LoadByteSource::HL => self.bus.read_byte(self.regs.get_hl()),
            LoadByteSource::HLI => self.bus.read_byte(self.regs.get_hl()),
            LoadByteSource::HLD => self.bus.read_byte(self.regs.get_hl()),
            LoadByteSource::A16 => self.bus.read_byte(self.read_next_word()),
            LoadByteSource::BC => self.bus.read_byte(self.regs.get_bc()),
            LoadByteSource::DE => self.bus.read_byte(self.regs.get_de()),
        }
    }

    pub fn put(&mut self, target: LoadByteTarget, value: u8)
        requires
            old(self).wf(),
        ensures
            *final(self) == old(self).spec_put(target, value),
            final(self).wf(),
    {
        match target {
            LoadByteTarget::A => self.regs.a = value,
            LoadByteTarget::B => self.regs.b = value,
            LoadByteTarget::C => self.regs.c = value,
            LoadByteTarget::D => self.regs.d = value,
            LoadByteTarget::E => self.regs.e = value,
            LoadByteTarget::H => self.regs.h = value,
            LoadByteTarget::L => self.regs.l = value,
            LoadByteTarget::HL => {
                let address: u16 = self.regs.get_hl();
                self.bus.write_byte(address, value);
            },
            LoadByteTarget::HLI => {
                let address: u16 = self.regs.get_hl();
                self.bus.write_byte(address, value);
                self.step_hl(true);
            },
            LoadByteTarget::HLD => {
                let address: u16 = self.regs.get_hl();
                self.bus.write_byte(address, value);
                self.step_hl(false);
            },
            LoadByteTarget::BC => {
                let address: u16 = self.regs.get_bc();
                self.bus.write_byte(address, value);
            },
            LoadByteTarget::DE => {
                let address: u16 = self.regs.get_de();
                self.bus.write_byte(address, value);
            },
            LoadByteTarget::A16 => {
                let address: u16 = self.read_next_word();
                self.bus.write_byte(address, value);
            },
        }
    }

    pub fn load_timing(&self, target: LoadByteTarget, source: LoadByteSource) -> (r: (u16, u8))
        ensures
            r == self.spec_load_timing(target, source),
    {
        let wide: bool = matches!(target, LoadByteTarget::A16) || matches!(
            source,
            LoadByteSource::A16
        );
        let through: bool = matches!(
            source,
            LoadByteSource::HL | LoadByteSource::HLI | LoadByteSource::HLD | LoadByteSource::BC
                | LoadByteSource::DE
        ) || matches!(
            target,
            LoadByteTarget::HL | LoadByteTarget::HLI | LoadByteTarget::HLD | LoadByteTarget::BC
                | LoadByteTarget::DE
        );
        if wide {
            (self.at(3), 16)
        } else if matches!(source, LoadByteSource::D8) {
            if matches!(target, LoadByteTarget::HL) {
                (self.at(2), 12)
            } else {
                (self.at(2), 8)
            }
        } else if through {
            (self.at(1), 8)
        } else {
            (self.at(1), 4)
        }
    }

    pub fn load_byte(&mut self, target: LoadByteTarget, source: LoadByteSource) -> (r: (u16, u8))
        requires
            old(self).wf(),
        ensures
            (*final(self), r.0, r.1) == old(self).spec_load_byte(target, source),
            final(self).wf(),
    {
        reveal(CPU::spec_load_byte);
        let value: u8 = self.load_value(source);
        let timing: (u16, u8) = self.load_timing(target, source);
        match source {
            LoadByteSource::HLI => self.step_hl(true),
            LoadByteSource::HLD => self.step_hl(false),
            _ => {},
        }
        self.put(target, value);
        timing
    }

    pub fn load_word(&mut self, target: LoadWordTarget, source: LoadWordSource) -> (r: (u16, u8))
        requires
            old(self).wf(),
        ensures
            (*final(self), r.0, r.1) == old(self).spec_load_word(target, source),
            final(self).wf(),
    {
        reveal(CPU::spec_load_word);
        let value: u16 = match source {
            LoadWordSource::D16 => self.read_next_word(),
            LoadWordSource::SP => self.sp,
            LoadWordSource::HL => self.regs.get_hl(),
            LoadWordSource::SPr8 => offset(0, self.read_next_byte()),
        };
        let timing: (u16, u8) = match source {
            LoadWordSource::HL => (self.at(1), 8),
            LoadWordSource::SPr8 => (self.at(2), 12),
            LoadWordSource::D16 => (self.at(3), 12),
            LoadWordSource::SP => (self.at(3), 20),
        };
        match target {
            LoadWordTarget::BC => self.regs.set_bc(value),
            LoadWordTarget::DE => self.regs.set_de(value),
            LoadWordTarget::SP => self.sp = value,
            LoadWordTarget::HL => {
                if matches!(source, LoadWordSource::SPr8) {
                    let byte: u8 = self.read_next_byte();
                    let result: (u16, FlagsRegister) = add_sp(self.sp, byte);
                    self.regs.set_hl(result.0);
                    self.regs.f = result.1;
                } else {
                    self.regs.set_hl(value);
                }
            },
            LoadWordTarget::A16 => {
                let address: u16 = self.read_next_word();
                self.bus.write_word(address, value);
            },
        }
        timing
    }

    pub fn load_high(&mut self, target: LoadOtherTarget, source: LoadOtherSource) -> (r: (u16, u8))
        requires
            old(self).wf(),
        ensures
            (*final(self), r.0, r.1) == old(self).spec_load_high(target, source),
            final(self).wf(),
    {
        reveal(CPU::spec_load_high);
        match (target, source) {
            (LoadOtherTarget::A8, LoadOtherSource::A) => {
                let address: u16 = 0xFF00 + self.read_next_byte() as u16;
                self.bus.write_byte(address, self.regs.a);
                (self.at(2), 12)
            },
            (LoadOtherTarget::CAddress, LoadOtherSource::A) => {
                let address: u16 = 0xFF00 + self.regs.c as u16;
                self.bus.write_byte(address, self.regs.a);
                (self.at(1), 8)
            },
            (LoadOtherTarget::A, LoadOtherSource::A8) => {
                let address: u16 = 0xFF00 + self.read_next_byte() as u16;
                self.regs.a = self.bus.read_byte(address);
                (self.at(2), 12)
            },
            (LoadOtherTarget::A, LoadOtherSource::CAddress) => {
                let address: u16 = 0xFF00 + self.regs.c as u16;
                self.regs.a = self.bus.read_byte(address);
                (self.at(1), 8)
            },
            _ => (self.at(1), 4),
        }
    }

    pub fn jump(&self, should_jump: bool) -> (r: (u16, u8))
        requires
            self.wf(),
        ensures
            r == (if should_jump {
                (self.spec_next_word(), 16u8)
            } else {
                (self.spec_at(3), 12u8)
            }),
    {
        if should_jump {
            (self.read_next_word(), 16)
        } else {
            (self.at(3), 12)
        }
    }

    pub fn jump_relative(&self, should_jump: bool) -> (r: (u16, u8))
        requires
            self.wf(),
        ensures
            r == (if should_jump {
                (spec_offset(self.spec_at(2), self.spec_next_byte()), 12u8)
            } else {
                (self.spec_at(2), 8u8)
            }),
    {
        let next: u16 = self.at(2);
        if should_jump {
            (offset(next, self.read_next_byte()), 12)
        } else {
            (next, 8)
        }
    }

    pub fn call(&mut self, should_jump: bool) -> (r: (u16, u8))
        requires
            old(self).wf(),
        ensures
            should_jump ==> *final(self) == old(self).spec_push(old(self).spec_at(3)) && r == (
                final(self).spec_next_word(),
                24u8,
            ),
            !should_jump ==> *final(self) == *old(self) && r == (old(self).spec_at(3), 12u8),
            final(self).wf(),
    {
        let next_pc: u16 = self.at(3);
        if should_jump {
            self.push(next_pc);
            (self.read_next_word(), 24)
        } else {
            (next_pc, 12)
        }
    }

    pub fn return_(&mut self, should_jump: bool) -> (r: (u16, u8))
        requires
            old(self).wf(),
        ensures
            should_jump ==> *final(self) == old(self).spec_pop() && r == (
                old(self).spec_top(),
                20u8,
            ),
            !should_jump ==> *final(self) == *old(self) && r == (old(self).spec_at(1), 8u8),
            final(self).wf(),
    {
        if should_jump {
            (self.pop(), 20)
        } else {
            (self.at(1), 8)
        }
    }

    pub fn halt(&mut self) -> (r: (u16, u8))
        ensures
            (*final(self), r.0, r.1) == old(self).spec_halt(),
            final(self).bus == old(self).bus,
    {
        reveal(CPU::spec_halt);
        let pending: bool = self.bus.interrupt.lowest_pending().is_some();
        self.halt_bug = !self.bus.interrupt.interrupt_master_enable && pending;
        self.halted = true;
        (self.at(1), 4)
    }

    /// Carries out an instruction that works on no operand but A and the
    /// flags, or on none at all.
    pub fn execute_simple(&mut self, instruction: Instructions) -> (r: (u16, u8))
        requires
            old(self).wf(),
            spec_is_simple(instruction),
        ensures
            (*final(self), r.0, r.1) == old(self).spec_execute_simple(instruction),
            final(self).wf(),
    {
        reveal(CPU::spec_execute_simple);
        match instruction {
            Instructions::HALT => self.halt(),
            Instructions::STOP => {
                self.bus.change_speed();
                (self.at(2), 4)
            },
            Instructions::DI => {
                self.bus.interrupt.interrupt_delay = false;
                self.bus.interrupt.interrupt_master_enable = false;
                (self.at(1), 4)
            },
            Instructions::EI => {
                self.icount = 0;
                self.bus.interrupt.interrupt_delay = true;
                (self.at(1), 4)
            },
            Instructions::DAA => {
                let result: (u8, FlagsRegister) = daa(self.regs.a, self.regs.f);
                self.accumulate(result, ArithmeticSource::A)
            },
            Instructions::CPL => {
                self.regs.a = !self.regs.a;
                self.regs.f.subtract = true;
                self.regs.f.half_carry = true;
                (self.at(1), 4)
            },
            Instructions::CCF => {
                self.regs.f.subtract = false;
                self.regs.f.half_carry = false;
                self.regs.f.carry = !self.regs.f.carry;
                (self.at(1), 4)
            },
            Instructions::SCF => {
                self.regs.f.subtract = false;
                self.regs.f.half_carry = false;
                self.regs.f.carry = true;
                (self.at(1), 4)
            },
            Instructions::RLCA => {
                let result: (u8, FlagsRegister) = rlc(self.regs.a);
                self.rotate_a(result)
            },
            Instructions::RRCA => {
                let result: (u8, FlagsRegister) = rrc(self.regs.a);
                self.rotate_a(result)
            },
            Instructions::RLA => {
                let result: (u8, FlagsRegister) = rl(self.regs.a, self.regs.f.carry);
                self.rotate_a(result)
            },
            Instructions::RRA => {
                let result: (u8, FlagsRegister) = rr(self.regs.a, self.regs.f.carry);
                self.rotate_a(result)
            },
            Instructions::JPHL => (self.regs.get_hl(), 4),
            _ => (self.at(1), 4),
        }
    }

    /// Carries out an increment, a decrement or a sixteen-bit addition.
    pub fn execute_counting(&mut self, instruction: Instructions) -> (r: (u16, u8))
        requires
            old(self).wf(),
            spec_is_counting(instruction),
        ensures
            (*final(self), r.0, r.1) == old(self).spec_execute_counting(instruction),
            final(self).wf(),
    {
        reveal(CPU::spec_execute_counting);
        match instruction {
            Instructions::INC(target) => self.inc_dec(target, true),
            Instructions::DEC(target) => self.inc_dec(target, false),
            Instructions::ADD16(target) => self.add_hl(target),
            _ => (self.at(1), 4),
        }
    }

    /// Carries out an addition or a subtraction.
    pub fn execute_arithmetic(&mut self, instruction: Instructions) -> (r: (u16, u8))
        requires
            old(self).wf(),
            spec_is_arithmetic(instruction),
        ensures
            (*final(self), r.0, r.1) == old(self).spec_execute_arithmetic(instruction),
            final(self).wf(),
    {
        reveal(CPU::spec_execute_arithmetic);
        match instruction {
            Instructions::ADD(target, source) => {
                if matches!(source, ArithmeticSource::I8) {
                    self.add_to_sp()
                } else if matches!(target, ArithmeticTarget::A) {
                    let result: (u8, FlagsRegister) = crate::system::alu::add(
                        self.regs.a,
                        self.source(source),
                    );
                    self.accumulate(result, source)
                } else {
                    (self.at(1), 4)
                }
            },
            Instructions::ADC(source) => {
                let result: (u8, FlagsRegister) = adc(
                    self.regs.a,
                    self.source(source),
                    self.regs.f.carry,
                );
                self.accumulate(result, source)
            },
            Instructions::SUB(source) => {
                let result: (u8, FlagsRegister) = crate::system::alu::sub(
                    self.regs.a,
                    self.source(source),
                );
                self.accumulate(result, source)
            },
            Instructions::SBC(source) => {
                let result: (u8, FlagsRegister) = sbc(
                    self.regs.a,
                    self.source(source),
                    self.regs.f.carry,
                );
                self.accumulate(result, source)
            },
            _ => (self.at(1), 4),
        }
    }

    /// Carries out a logical operation or a comparison.
    pub fn execute_logic(&mut self, instruction: Instructions) -> (r: (u16, u8))
        requires
            old(self).wf(),
            spec_is_logic(instruction),
        ensures
            (*final(self), r.0, r.1) == old(self).spec_execute_logic(instruction),
            final(self).wf(),
    {
        reveal(CPU::spec_execute_logic);
        match instruction {
            Instructions::AND(source) => {
                let result: (u8, FlagsRegister) = and(self.regs.a, self.source(source));
                self.accumulate(result, source)
            },
            Instructions::XOR(source) => {
                let result: (u8, FlagsRegister) = xor(self.regs.a, self.source(source));
                self.accumulate(result, source)
            },
            Instructions::OR(source) => {
                let result: (u8, FlagsRegister) = or(self.regs.a, self.source(source));
                self.accumulate(result, source)
            },
            Instructions::CP(source) => self.compare(source),
            _ => (self.at(1), 4),
        }
    }

    /// Carries out a load, a push or a pop.
    pub fn execute_load(&mut self, instruction: Instructions) -> (r: (u16, u8))
        requires
            old(self).wf(),
            spec_is_load(instruction),
        ensures
            (*final(self), r.0, r.1) == old(self).spec_execute_load(instruction),
            final(self).wf(),
    {
        reveal(CPU::spec_execute_load);
        match instruction {
            Instructions::LD(LoadType::Byte(target, source)) => self.load_byte(target, source),
            Instructions::LD(LoadType::Word(target, source)) => self.load_word(target, source),
            Instructions::LDH(LoadType::Other(target, source)) => self.load_high(target, source),
            Instructions::PUSH(target) => {
                proof {
                    reveal(CPU::spec_push_pair);
                }
                let value: u16 = match target {
                    StackTarget::BC => self.regs.get_bc(),
                    StackTarget::DE => self.regs.get_de(),
                    StackTarget::HL => self.regs.get_hl(),
                    StackTarget::AF => self.regs.get_af(),
                };
                self.push(value);
                (self.at(1), 16)
            },
            Instructions::POP(target) => {
                proof {
                    reveal(CPU::spec_pop_pair);
                }
                let result: u16 = self.pop();
                match target {
                    StackTarget::BC => self.regs.set_bc(result),
                    StackTarget::AF => self.regs.set_af(result),
                    StackTarget::DE => self.regs.set_de(result),
                    StackTarget::HL => self.regs.set_hl(result),
                };
                (self.at(1), 12)
            },
            _ => (self.at(1), 4),
        }
    }

    /// Carries out a jump, a call, a return or a restart.
    pub fn execute_control(&mut self, instruction: Instructions) -> (r: (u16, u8))
        requires
            old(self).wf(),
            spec_is_control(instruction),
        ensures
            (*final(self), r.0, r.1) == old(self).spec_execute_control(instruction),
            final(self).wf(),
    {
        reveal(CPU::spec_execute_control);
        proof {
            reveal(CPU::spec_jump_relative);
            reveal(CPU::spec_jump);
            reveal(CPU::spec_call);
            reveal(CPU::spec_return);
            reveal(CPU::spec_return_enable);
            reveal(CPU::spec_restart);
        }
        match instruction {
            Instructions::JR(test) => self.jump_relative(self.test(test)),
            Instructions::JP(test) => self.jump(self.test(test)),
            Instructions::CALL(test) => {
                let should_jump: bool = self.test(test);
                self.call(should_jump)
            },
            Instructions::RET(test) => {
                let should_jump: bool = self.test(test);
                let outcome: (u16, u8) = self.return_(should_jump);
                if matches!(test, JumpTest::Always) {
                    (outcome.0, outcome.1 - 4)
                } else {
                    outcome
                }
            },
            Instructions::RETI => {
                let value: u16 = self.pop();
                self.bus.interrupt.interrupt_master_enable = true;
                (value, 16)
            },
            Instructions::RST(target) => {
                let location: u16 = match target {
                    RSTTargets::H00 => 0x00,
                    RSTTargets::H08 => 0x08,
                    RSTTargets::H10 => 0x10,
                    RSTTargets::H18 => 0x18,
                    RSTTargets::H20 => 0x20,
                    RSTTargets::H28 => 0x28,
                    RSTTargets::H30 => 0x30,
                    RSTTargets::H38 => 0x38,
                };
                let from: u16 = self.at(1);
                self.push(from);
                (location, 16)
            },
            _ => (self.at(1), 4),
        }
    }

    /// Carries out an instruction that follows the prefix.
    pub fn execute_prefixed(&mut self, instruction: Instructions) -> (r: (u16, u8))
        requires
            old(self).wf(),
            spec_is_prefixed(instruction),
        ensures
            (*final(self), r.0, r.1) == old(self).spec_execute_prefixed(instruction),
            final(self).wf(),
    {
        reveal(CPU::spec_execute_prefixed);
        match instruction {
            Instructions::RLC(source) => {
                let result: (u8, FlagsRegister) = rlc(self.source(source));
                self.shift(source, result)
            },
            Instructions::RRC(source) => {
                let result: (u8, FlagsRegister) = rrc(self.source(source));
                self.shift(source, result)
            },
            Instructions::RL(source) => {
                let result: (u8, FlagsRegister) = rl(self.source(source), self.regs.f.carry);
                self.shift(source, result)
            },
            Instructions::RR(source) => {
                let result: (u8, FlagsRegister) = rr(self.source(source), self.regs.f.carry);
                self.shift(source, result)
            },
            Instructions::SLA(source) => {
                let result: (u8, FlagsRegister) = sla(self.source(source));
                self.shift(source, result)
            },
            Instructions::SRA(source) => {
                let result: (u8, FlagsRegister) = sra(self.source(source));
                self.shift(source, result)
            },
            Instructions::SWAP(source) => {
                let result: (u8, FlagsRegister) = swap(self.source(source));
                self.shift(source, result)
            },
            Instructions::SRL(source) => {
                let result: (u8, FlagsRegister) = srl(self.source(source));
                self.shift(source, result)
            },
            Instructions::BIT(k, source) => self.bit_op(k, source),
            Instructions::RES(k, source) => self.change_bit(k, source, false),
            Instructions::SET(k, source) => self.change_bit(k, source, true),
            _ => (self.at(1), 4),
        }
    }

    /// Carries out an instruction. Returns the address of the instruction
    /// that follows and the cycles taken.
    pub fn decode_instruction(&mut self, instruction: Instructions) -> (r: (u16, u8))
        requires
            old(self).wf(),
        ensures
            (*final(self), r.0, r.1) == old(self).spec_execute(instruction),
            final(self).wf(),
    {
        match instruction {
            Instructions::NOP
            | Instructions::LD(LoadType::Other(_, _))
            | Instructions::LDH(LoadType::Byte(_, _))
            | Instructions::LDH(LoadType::Word(_, _)) => (self.at(1), 4),
            Instructions::HALT
            | Instructions::STOP
            | Instructions::DI
            | Instructions::EI
            | Instructions::DAA
            | Instructions::CPL
            | Instructions::CCF
            | Instructions::SCF
            | Instructions::RLCA
            | Instructions::RRCA
            | Instructions::RLA
            | Instructions::RRA
            | Instructions::JPHL => self.execute_simple(instruction),
            Instructions::INC(_)
            | Instructions::DEC(_)
            | Instructions::ADD16(_) => self.execute_counting(instruction),
            Instructions::ADD(_, _)
            | Instructions::ADC(_)
            | Instructions::SUB(_)
            | Instructions::SBC(_) => self.execute_arithmetic(instruction),
            Instructions::AND(_)
            | Instructions::XOR(_)
            | Instructions::OR(_)
            | Instructions::CP(_) => self.execute_logic(instruction),
            Instructions::LD(_)
            | Instructions::LDH(_)
            | Instructions::PUSH(_)
            | Instructions::POP(_) => self.execute_load(instruction),
            Instructions::JR(_)
            | Instructions::JP(_)
            | Instructions::CALL(_)
            | Instructions::RET(_)
            | Instructions::RETI
            | Instructions::RST(_) => self.execute_control(instruction),
            Instructions::RLC(_)
            | Instructions::RRC(_)
            | Instructions::RL(_)
            | Instructions::RR(_)
            | Instructions::SLA(_)
            | Instructions::SRA(_)
            | Instructions::SWAP(_)
            | Instructions::SRL(_)
            | Instructions::BIT(_, _)
            | Instructions::RES(_, _)
            | Instructions::SET(_, _) => self.execute_prefixed(instruction),
        }
    }
}

/// Instructions on A and the flags alone, or on nothing.
pub open spec fn spec_is_simple(instruction: Instructions) -> bool {
    matches!(
        instruction,
        Instructions::HALT | Instructions::STOP | Instructions::DI | Instructions::EI
            | Instructions::DAA | Instructions::CPL | Instructions::CCF | Instructions::SCF
            | Instructions::RLCA | Instructions::RRCA | Instructions::RLA | Instructions::RRA
            | Instructions::JPHL
    )
}

pub open spec fn spec_is_counting(instruction: Instructions) -> bool {
    matches!(instruction, Instructions::INC(_) | Instructions::DEC(_) | Instructions::ADD16(_))
}

pub open spec fn spec_is_arithmetic(instruction: Instructions) -> bool {
    matches!(
        instruction,
        Instructions::ADD(_, _) | Instructions::ADC(_) | Instructions::SUB(_)
            | Instructions::SBC(_)
    )
}

pub open spec fn spec_is_logic(instruction: Instructions) -> bool {
    matches!(
        instruction,
        Instructions::AND(_) | Instructions::XOR(_) | Instructions::OR(_) | Instructions::CP(_)
    )
}

/// The loads that an opcode stands for, and the stack instructions.
pub open spec fn spec_is_load(instruction: Instructions) -> bool {
    matches!(
        instruction,
        Instructions::LD(LoadType::Byte(_, _)) | Instructions::LD(LoadType::Word(_, _))
            | Instructions::LDH(LoadType::Other(_, _)) | Instructions::PUSH(_)
            | Instructions::POP(_)
    )
}

pub open spec fn spec_is_control(instruction: Instructions) -> bool {
    matches!(
        instruction,
        Instructions::JR(_) | Instructions::JP(_) | Instructions::CALL(_) | Instructions::RET(_)
            | Instructions::RETI | Instructions::RST(_)
    )
}

pub open spec fn spec_is_prefixed(instruction: Instructions) -> bool {
    matches!(
        instruction,
        Instructions::RLC(_) | Instructions::RRC(_) | Instructions::RL(_) | Instructions::RR(_)
            | Instructions::SLA(_) | Instructions::SRA(_) | Instructions::SWAP(_)
            | Instructions::SRL(_) | Instructions::BIT(_, _) | Instructions::RES(_, _)
            | Instructions::SET(_, _)
    )
}

/// Every instruction takes a positive number of cycles that is a multiple of
/// four, and no more than 24.
pub proof fn lemma_cycles_multiple_of_four(cpu: CPU, instruction: Instructions)
    ensures
        0 < cpu.spec_execute(instruction).2 <= 24,
        cpu.spec_execute(instruction).2 % 4 == 0,
{
    reveal(CPU::spec_execute_simple);
    reveal(CPU::spec_execute_counting);
    reveal(CPU::spec_execute_arithmetic);
    reveal(CPU::spec_execute_logic);
    reveal(CPU::spec_execute_load);
    reveal(CPU::spec_execute_control);
    reveal(CPU::spec_execute_prefixed);
    reveal(CPU::spec_accumulate);
    reveal(CPU::spec_compare);
    reveal(CPU::spec_rotate_a);
    reveal(CPU::spec_shift);
    reveal(CPU::spec_bit_op);
    reveal(CPU::spec_change_bit);
    reveal(CPU::spec_inc_dec);
    reveal(CPU::spec_add_hl);
    reveal(CPU::spec_add_to_sp);
    reveal(CPU::spec_load_byte);
    reveal(CPU::spec_load_word);
    reveal(CPU::spec_load_high);
    reveal(CPU::spec_jump_relative);
    reveal(CPU::spec_jump);
    reveal(CPU::spec_call);
    reveal(CPU::spec_return);
    reveal(CPU::spec_return_enable);
    reveal(CPU::spec_restart);
    reveal(CPU::spec_push_pair);
    reveal(CPU::spec_pop_pair);
    reveal(CPU::spec_halt);
}

} // verus!
