//! The execution loop: fetch, one turn of processor and devices, a frame's
//! worth of turns, and the start of the machine.

use super::bus::MemoryBus;
use super::cpu::{CPU, HALT_CYCLES};
use super::error::EmulatorError;
use super::execute::lemma_cycles_multiple_of_four;
use super::instructions::{spec_decode, Instructions};
use super::interrupts::Interrupts;
use super::timer::MAX_CYCLES;
use vstd::prelude::*;

verus! {

/// Dots that the pixel pipeline gets in each turn beyond the cycles that the
/// processor took.
pub const EXTRA_DOTS: u32 = 4;

/// Where a cartridge's program begins.
pub const ENTRY_POINT: u16 = 0x0100;

impl CPU {
    /// The byte at the program counter.
    pub open spec fn spec_opcode(self) -> u8 {
        self.bus.spec_read(self.pc)
    }

    /// Whether the byte at the program counter is the prefix.
    pub open spec fn spec_prefixed(self) -> bool {
        self.spec_opcode() == 0xCB
    }

    /// The processor as the instruction finds it. Where the halt bug is
    /// armed, the program counter stands one byte lower than it did, which
    /// makes up for the byte that the instruction will move it past, and the
    /// arm is cleared.
    pub open spec fn spec_fetched(self) -> CPU {
        if self.halt_bug {
            CPU { halt_bug: false, pc: ((self.pc + 0xFFFF) % 0x1_0000) as u16, ..self }
        } else {
            self
        }
    }

    /// The byte that names the instruction: the byte at the program counter,
    /// or the byte after the prefix.
    pub open spec fn spec_operation(self) -> u8 {
        if self.spec_prefixed() {
            self.spec_fetched().spec_next_byte()
        } else {
            self.spec_opcode()
        }
    }

    /// The instruction at the program counter, if there is one.
    pub open spec fn spec_instruction(self) -> Option<Instructions> {
        spec_decode(self.spec_operation(), self.spec_prefixed())
    }

    /// What is reported where there is no instruction at the program
    /// counter.
    pub open spec fn spec_fault(self) -> EmulatorError {
        EmulatorError::UnimplementedOpcode {
            opcode: self.spec_operation(),
            prefixed: self.spec_prefixed(),
        }
    }

    /// The processor after the instruction at the program counter.
    pub open spec fn spec_execute_one(self) -> CPU {
        let outcome = self.spec_fetched().spec_execute(self.spec_instruction()->0);
        CPU { pc: outcome.1, ..outcome.0 }
    }

    /// The cycles that the instruction at the program counter takes.
    pub open spec fn spec_execute_cycles(self) -> u32 {
        self.spec_fetched().spec_execute(self.spec_instruction()->0).2 as u32
    }

    /// The processor after the delay of EI has been counted: the master
    /// enable is turned on when the second instruction after EI is about to
    /// begin.
    pub open spec fn spec_tick_ime(self) -> CPU {
        if !self.bus.interrupt.interrupt_delay {
            self
        } else if self.icount >= 1 {
            CPU { icount: 2, ..self.spec_enable(true, false) }
        } else {
            CPU { icount: 1, ..self }
        }
    }

    /// The processor as a turn finds it when it comes to run: the delay of
    /// EI counted and interrupts serviced.
    #[verifier::opaque]
    pub open spec fn spec_ready(self) -> CPU {
        self.spec_tick_ime().spec_service()
    }

    /// Whether the turn cannot go on: no interrupt is entered, the processor
    /// is not halted, and there is no instruction at the program counter.
    #[verifier::opaque]
    pub open spec fn spec_stalls(self) -> bool {
        &&& self.spec_tick_ime().spec_service_cycles() == 0
        &&& !self.spec_ready().halted
        &&& self.spec_ready().spec_instruction() is None
    }

    /// The cycles that a turn takes: those of entering an interrupt handler,
    /// or four while halted, or those of the instruction.
    #[verifier::opaque]
    pub open spec fn spec_turn_cycles(self) -> u32 {
        if self.spec_tick_ime().spec_service_cycles() != 0 {
            self.spec_tick_ime().spec_service_cycles()
        } else if self.spec_ready().halted {
            HALT_CYCLES
        } else {
            self.spec_ready().spec_execute_cycles()
        }
    }

    /// The processor after its part of a turn.
    #[verifier::opaque]
    pub open spec fn spec_run(self) -> CPU {
        if self.spec_tick_ime().spec_service_cycles() != 0 || self.spec_ready().halted {
            self.spec_ready()
        } else {
            self.spec_ready().spec_execute_one()
        }
    }

    /// The machine after the devices' part of a turn in which the processor
    /// took `cycles`: the transfer unit has its turn, the timer advances by
    /// the cycles multiplied by the speed factor and the transfer's cycles,
    /// and the pixel pipeline by the cycles and four dots more.
    #[verifier::opaque]
    pub open spec fn spec_devices(self, cycles: u32) -> CPU {
        let moved = self.bus.spec_run_hdma();
        let ticks = (cycles * moved.speed.spec_factor() + self.bus.spec_hdma_cycles()) as u32;
        let timed = moved.interrupt.spec_request_if(
            moved.timer.spec_overflows(ticks),
            Interrupts::Timer,
        );
        let dots = (cycles + EXTRA_DOTS) as u32;
        CPU {
            bus: MemoryBus {
                timer: moved.timer.spec_update(ticks),
                gpu: moved.gpu.spec_update(dots),
                interrupt: moved.gpu.spec_update_requests(dots, timed),
                ..moved
            },
            ..self
        }
    }

    /// The machine after one turn.
    #[verifier::opaque]
    pub open spec fn spec_turn(self) -> CPU {
        self.spec_run().spec_devices(self.spec_turn_cycles())
    }

    /// The machine at the end of the frame that it is in: turn follows turn
    /// until the frame's cycles are spent or a turn cannot go on.
    pub open spec fn spec_frame(self) -> CPU
        decreases MAX_CYCLES + 24 - self.step_cycles,
    {
        if self.step_cycles >= MAX_CYCLES {
            self
        } else if self.spec_stalls() {
            self.spec_ready()
        } else {
            proof {
                lemma_turn_takes_time(self);
            }
            let after = self.spec_turn();
            (CPU { step_cycles: (self.step_cycles + self.spec_turn_cycles()) as u32, ..after }).spec_frame()
        }
    }

    /// What ends the frame early, if anything does.
    pub open spec fn spec_frame_fault(self) -> Option<EmulatorError>
        decreases MAX_CYCLES + 24 - self.step_cycles,
    {
        if self.step_cycles >= MAX_CYCLES {
            None
        } else if self.spec_stalls() {
            Some(self.spec_ready().spec_fault())
        } else {
            proof {
                lemma_turn_takes_time(self);
            }
            let after = self.spec_turn();
            (CPU { step_cycles: (self.step_cycles + self.spec_turn_cycles()) as u32, ..after }).spec_frame_fault()
        }
    }

    /// Whether the boot ROM has handed over: the program counter has left
    /// it.
    pub open spec fn spec_boot_done(self) -> bool {
        if self.bus.gpu.spec_is_cgb() {
            self.pc == ENTRY_POINT
        } else {
            self.pc > 0xFF
        }
    }

    /// Counts the delay of EI.
    pub fn tick_ime(&mut self)
        ensures
            *final(self) == old(self).spec_tick_ime(),
            old(self).wf() ==> final(self).wf(),
    {
        if self.bus.interrupt.interrupt_delay {
            if self.icount >= 1 {
                self.icount = 2;
                self.bus.interrupt.interrupt_delay = false;
                self.bus.interrupt.interrupt_master_enable = true;
            } else {
                self.icount = 1;
            }
        }
    }

    /// Fetches the instruction at the program counter and carries it out.
    /// Tells the cycles it took, or that there is no instruction there, in
    /// which case nothing has changed.
    pub fn execute_instruction(&mut self) -> (r: Result<u32, EmulatorError>)
        requires
            old(self).wf(),
        ensures
            r is Ok <==> old(self).spec_instruction() is Some,
            r is Ok ==> *final(self) == old(self).spec_execute_one() && r->Ok_0 == old(
                self,
            ).spec_execute_cycles() && 4 <= r->Ok_0 <= 24 && r->Ok_0 % 4 == 0,
            r is Err ==> *final(self) == *old(self) && r->Err_0 == old(self).spec_fault(),
            final(self).wf(),
    {
        let opcode: u8 = self.bus.read_byte(self.pc);
        let prefixed: bool = opcode == 0xCB;
        if !prefixed {
            if Instructions::from_byte(opcode, false).is_none() {
                return Err(EmulatorError::UnimplementedOpcode { opcode, prefixed });
            }
        }
        if self.halt_bug {
            self.halt_bug = false;
            self.pc = ((self.pc as u32 + 0xFFFF) % 0x1_0000) as u16;
        }
        let operation: u8 = if prefixed {
            self.read_next_byte()
        } else {
            opcode
        };
        match Instructions::from_byte(operation, prefixed) {
            Some(instruction) => {
                proof {
                    lemma_cycles_multiple_of_four(*self, instruction);
                }
                let outcome: (u16, u8) = self.decode_instruction(instruction);
                self.pc = outcome.0;
                Ok(outcome.1 as u32)
            },
            None => Err(EmulatorError::UnimplementedOpcode { opcode, prefixed }),
        }
    }

    /// Gives the transfer unit its turn and tells the timer cycles it took.
    pub fn run_hdma(&mut self) -> (cycles: u32)
        requires
            old(self).wf(),
        ensures
            *final(self) == (CPU { bus: old(self).bus.spec_run_hdma(), ..*old(self) }),
            cycles == old(self).bus.spec_hdma_cycles(),
            cycles <= 0x80 * super::transfer::BLOCK_CYCLES,
            final(self).wf(),
    {
        self.bus.run_hdma()
    }

    /// The devices' part of a turn.
    pub fn devices(&mut self, cycles: u32)
        requires
            old(self).wf(),
            cycles <= 24,
        ensures
            *final(self) == old(self).spec_devices(cycles),
            final(self).wf(),
    {
        reveal(CPU::spec_devices);
        let transfer: u32 = self.run_hdma();
        let factor: u32 = self.bus.speed.factor();
        assert(cycles * factor <= 48) by (nonlinear_arith)
            requires
                cycles <= 24,
                factor <= 2,
        ;
        let ticks: u32 = cycles * factor + transfer;
        self.bus.timer.update_timers(ticks, &mut self.bus.interrupt);
        self.bus.gpu.update_graphics(cycles + EXTRA_DOTS, &mut self.bus.interrupt);
    }

    /// One turn: the delay of EI, interrupts, an instruction unless halted or
    /// busy entering a handler, then the devices. Tells the cycles that the
    /// processor took, or that there is no instruction at the program
    /// counter.
    pub fn turn(&mut self) -> (r: Result<u32, EmulatorError>)
        requires
            old(self).wf(),
        ensures
            r is Ok <==> !old(self).spec_stalls(),
            r is Ok ==> *final(self) == old(self).spec_turn() && r->Ok_0 == old(
                self,
            ).spec_turn_cycles() && 4 <= r->Ok_0 <= 24 && r->Ok_0 % 4 == 0,
            r is Err ==> *final(self) == old(self).spec_ready() && r->Err_0 == old(
                self,
            ).spec_ready().spec_fault(),
            final(self).wf(),
    {
        reveal(CPU::spec_ready);
        reveal(CPU::spec_stalls);
        reveal(CPU::spec_turn_cycles);
        reveal(CPU::spec_run);
        reveal(CPU::spec_turn);
        self.tick_ime();
        let serviced: u32 = self.process_interrupts();
        let cycles: u32 = if serviced != 0 {
            serviced
        } else if self.halted {
            HALT_CYCLES
        } else {
            match self.execute_instruction() {
                Ok(taken) => taken,
                Err(e) => {
                    return Err(e);
                },
            }
        };
        self.devices(cycles);
        Ok(cycles)
    }

    /// Runs the machine for one frame. Stops early, with the machine as the
    /// fault found it, where there is no instruction at the program counter.
    pub fn update_emulator(&mut self) -> (r: Result<(), EmulatorError>)
        requires
            old(self).wf(),
        ensures
            *final(self) == (CPU { step_cycles: 0, ..*old(self) }).spec_frame(),
            r == (match (CPU { step_cycles: 0, ..*old(self) }).spec_frame_fault() {
                Some(e) => Err::<(), EmulatorError>(e),
                None => Ok(()),
            }),
            r is Ok ==> MAX_CYCLES <= final(self).step_cycles < MAX_CYCLES + 24,
            final(self).wf(),
    {
        self.step_cycles = 0;
        let ghost start = *self;
        while self.step_cycles < MAX_CYCLES
            invariant
                self.wf(),
                self.step_cycles < MAX_CYCLES + 24,
                start == (CPU { step_cycles: 0, ..*old(self) }),
                start.spec_frame() == self.spec_frame(),
                start.spec_frame_fault() == self.spec_frame_fault(),
            decreases MAX_CYCLES + 24 - self.step_cycles,
        {
            let spent: u32 = self.step_cycles;
            let ghost before = *self;
            match self.turn() {
                Ok(cycles) => {
                    self.step_cycles = spent + cycles;
                    assert(before.spec_frame() == self.spec_frame());
                    assert(before.spec_frame_fault() == self.spec_frame_fault());
                },
                Err(e) => {
                    assert(before.spec_frame() == before.spec_ready());
                    assert(before.spec_frame_fault() == Some(e));
                    return Err(e);
                },
            }
        }
        Ok(())
    }
}

/// A turn that goes on takes at least four cycles and at most 24, and a
/// multiple of four.
pub proof fn lemma_turn_takes_time(cpu: CPU)
    requires
        !cpu.spec_stalls(),
    ensures
        4 <= cpu.spec_turn_cycles() <= 24,
        cpu.spec_turn_cycles() % 4 == 0,
{
    reveal(CPU::spec_ready);
    reveal(CPU::spec_stalls);
    reveal(CPU::spec_turn_cycles);
    let ready = cpu.spec_ready();
    if cpu.spec_tick_ime().spec_service_cycles() == 0 && !ready.halted {
        lemma_cycles_multiple_of_four(ready.spec_fetched(), ready.spec_instruction()->0);
    }
}

} // verus!
