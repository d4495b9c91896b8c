//! The start of the machine: with the boot ROM, or straight into the
//! cartridge with the registers as the boot ROM would have left them.

use super::bus::MemoryBus;
use super::cpu::CPU;
use super::error::EmulatorError;
use super::frame::{lemma_turn_takes_time, ENTRY_POINT};
use super::gpu::Hardware;
use super::registers::{FlagsRegister, Registers};
use super::timer::MAX_CYCLES;
use vstd::prelude::*;

verus! {

impl MemoryBus {
    /// The bus with the timer's registers as the boot ROM leaves them.
    pub open spec fn spec_power_up_timer(self) -> MemoryBus {
        self
            .spec_write(0xFF05, 0x00)
            .spec_write(0xFF06, 0x00)
            .spec_write(0xFF07, 0x00)
    }

    /// The bus with the sound registers as the boot ROM leaves them.
    pub open spec fn spec_power_up_sound(self) -> MemoryBus {
        self
            .spec_write(0xFF10, 0x80)
            .spec_write(0xFF11, 0xBF)
            .spec_write(0xFF12, 0xF3)
            .spec_write(0xFF14, 0xBF)
            .spec_write(0xFF16, 0x3F)
            .spec_write(0xFF17, 0x00)
            .spec_write(0xFF19, 0xBF)
            .spec_write(0xFF1A, 0x7F)
            .spec_write(0xFF1B, 0xFF)
            .spec_write(0xFF1C, 0x9F)
            .spec_write(0xFF1E, 0xBF)
            .spec_write(0xFF20, 0xFF)
            .spec_write(0xFF21, 0x00)
            .spec_write(0xFF22, 0x00)
            .spec_write(0xFF23, 0xBF)
            .spec_write(0xFF24, 0x77)
            .spec_write(0xFF25, 0xF3)
            .spec_write(0xFF26, 0xF1)
    }

    /// The bus with the registers of the pixel pipeline, and the interrupt
    /// enable, as the boot ROM leaves them.
    pub open spec fn spec_power_up_video(self) -> MemoryBus {
        self
            .spec_write(0xFF40, 0x91)
            .spec_write(0xFF42, 0x00)
            .spec_write(0xFF43, 0x00)
            .spec_write(0xFF45, 0x00)
            .spec_write(0xFF47, 0xFC)
            .spec_write(0xFF48, 0xFF)
            .spec_write(0xFF49, 0xFF)
            .spec_write(0xFF4A, 0x00)
            .spec_write(0xFF4B, 0x00)
            .spec_write(0xFFFF, 0x00)
    }

    /// The bus with all registers as the boot ROM leaves them.
    pub open spec fn spec_power_up(self) -> MemoryBus {
        self.spec_power_up_timer().spec_power_up_sound().spec_power_up_video()
    }

    pub fn power_up_timer(&mut self)
        requires
            old(self).wf(),
        ensures
            *final(self) == old(self).spec_power_up_timer(),
            final(self).wf(),
    {
        self.write_byte(0xFF05, 0x00);
        self.write_byte(0xFF06, 0x00);
        self.write_byte(0xFF07, 0x00);
    }

    pub fn power_up_sound(&mut self)
        requires
            old(self).wf(),
        ensures
            *final(self) == old(self).spec_power_up_sound(),
            final(self).wf(),
    {
        self.write_byte(0xFF10, 0x80);
        self.write_byte(0xFF11, 0xBF);
        self.write_byte(0xFF12, 0xF3);
        self.write_byte(0xFF14, 0xBF);
        self.write_byte(0xFF16, 0x3F);
        self.write_byte(0xFF17, 0x00);
        self.write_byte(0xFF19, 0xBF);
        self.write_byte(0xFF1A, 0x7F);
        self.write_byte(0xFF1B, 0xFF);
        self.write_byte(0xFF1C, 0x9F);
        self.write_byte(0xFF1E, 0xBF);
        self.write_byte(0xFF20, 0xFF);
        self.write_byte(0xFF21, 0x00);
        self.write_byte(0xFF22, 0x00);
        self.write_byte(0xFF23, 0xBF);
        self.write_byte(0xFF24, 0x77);
        self.write_byte(0xFF25, 0xF3);
        self.write_byte(0xFF26, 0xF1);
    }

    pub fn power_up_video(&mut self)
        requires
            old(self).wf(),
        ensures
            *final(self) == old(self).spec_power_up_video(),
            final(self).wf(),
    {
        self.write_byte(0xFF40, 0x91);
        self.write_byte(0xFF42, 0x00);
        self.write_byte(0xFF43, 0x00);
        self.write_byte(0xFF45, 0x00);
        self.write_byte(0xFF47, 0xFC);
        self.write_byte(0xFF48, 0xFF);
        self.write_byte(0xFF49, 0xFF);
        self.write_byte(0xFF4A, 0x00);
        self.write_byte(0xFF4B, 0x00);
        self.write_byte(0xFFFF, 0x00);
    }

    /// Writes the registers as the boot ROM leaves them.
    pub fn power_up(&mut self)
        requires
            old(self).wf(),
        ensures
            *final(self) == old(self).spec_power_up(),
            final(self).wf(),
    {
        self.power_up_timer();
        self.power_up_sound();
        self.power_up_video();
    }
}

impl CPU {
    /// The processor's registers as the boot ROM leaves them: A tells the
    /// machine, F is 0xB0, BC is 0x0013, DE is 0x00D8 and HL is 0x014D.
    pub open spec fn spec_power_up_registers(self) -> Registers {
        Registers {
            a: if self.bus.gpu.spec_is_cgb() {
                0x11
            } else {
                0x01
            },
            f: FlagsRegister { zero: true, subtract: false, half_carry: true, carry: true },
            b: 0x00,
            c: 0x13,
            d: 0x00,
            e: 0xD8,
            h: 0x01,
            l: 0x4D,
        }
    }

    /// The machine as the boot ROM leaves it, but for the program counter.
    pub open spec fn spec_initialize_system(self) -> CPU {
        CPU {
            regs: self.spec_power_up_registers(),
            sp: 0xFFFE,
            bus: self.bus.spec_power_up(),
            ..self
        }
    }

    /// The machine after the boot ROM has handed over: the boot ROM is no
    /// longer mapped and the registers are set.
    pub open spec fn spec_hand_over(self) -> CPU {
        (CPU { bus: MemoryBus { run_bootrom: false, ..self.bus }, ..self }).spec_initialize_system()
    }

    /// The machine at the end of the frame that it is in while the boot ROM
    /// runs: as any frame, but that the boot ROM hands over as soon as the
    /// program counter has left it, which ends the frame.
    pub open spec fn spec_boot_frame(self) -> CPU
        decreases MAX_CYCLES + 24 - self.step_cycles,
    {
        if self.step_cycles >= MAX_CYCLES {
            self
        } else if self.spec_stalls() {
            self.spec_ready()
        } else {
            proof {
                lemma_turn_takes_time(self);
            }
            let after = CPU {
                step_cycles: (self.step_cycles + self.spec_turn_cycles()) as u32,
                ..self.spec_turn()
            };
            if after.spec_boot_done() {
                after.spec_hand_over()
            } else {
                after.spec_boot_frame()
            }
        }
    }

    /// What ends the boot frame early, if anything does.
    pub open spec fn spec_boot_fault(self) -> Option<EmulatorError>
        decreases MAX_CYCLES + 24 - self.step_cycles,
    {
        if self.step_cycles >= MAX_CYCLES {
            None
        } else if self.spec_stalls() {
            Some(self.spec_ready().spec_fault())
        } else {
            proof {
                lemma_turn_takes_time(self);
            }
            let after = CPU {
                step_cycles: (self.step_cycles + self.spec_turn_cycles()) as u32,
                ..self.spec_turn()
            };
            if after.spec_boot_done() {
                None
            } else {
                after.spec_boot_fault()
            }
        }
    }

    /// Sets the registers as the boot ROM leaves them.
    pub fn initialize_system(&mut self)
        requires
            old(self).wf(),
        ensures
            *final(self) == old(self).spec_initialize_system(),
            final(self).wf(),
    {
        match self.bus.gpu.hardware {
            Hardware::CGB => self.regs.a = 0x11,
            Hardware::DMG => self.regs.a = 0x01,
        }
        self.regs.f = FlagsRegister::from(0xB0);
        self.regs.set_bc(0x0013);
        self.regs.set_de(0x00D8);
        self.regs.set_hl(0x014D);
        self.sp = 0xFFFE;
        self.bus.power_up();
    }

    /// Gets the machine ready to run. Where the boot ROM is to run, its image
    /// is taken; else the image is dropped and the machine starts at the
    /// cartridge's entry point, as the boot ROM would have left it.
    pub fn initialize_bootrom(&mut self, image: Vec<u8>)
        requires
            old(self).wf(),
        ensures
            old(self).bus.run_bootrom ==> *final(self) == (CPU {
                bus: MemoryBus { bootrom: image, ..old(self).bus },
                ..*old(self)
            }),
            !old(self).bus.run_bootrom ==> *final(self) == (CPU {
                pc: ENTRY_POINT,
                ..*old(self)
            }).spec_initialize_system(),
            final(self).wf(),
    {
        if self.bus.run_bootrom {
            self.bus.bootrom = image;
        } else {
            self.pc = ENTRY_POINT;
            self.initialize_system();
        }
    }

    /// Tells whether the boot ROM has handed over.
    pub fn boot_done(&self) -> (r: bool)
        ensures
            r == self.spec_boot_done(),
    {
        match self.bus.gpu.hardware {
            Hardware::CGB => self.pc == ENTRY_POINT,
            Hardware::DMG => self.pc > 0xFF,
        }
    }

    /// Runs the boot ROM for one frame, or until it hands over.
    pub fn run_bootrom(&mut self) -> (r: Result<(), EmulatorError>)
        requires
            old(self).wf(),
        ensures
            *final(self) == (CPU { step_cycles: 0, ..*old(self) }).spec_boot_frame(),
            r == (match (CPU { step_cycles: 0, ..*old(self) }).spec_boot_fault() {
                Some(e) => Err::<(), EmulatorError>(e),
                None => Ok(()),
            }),
            final(self).wf(),
    {
        self.step_cycles = 0;
        let ghost start = *self;
        while self.step_cycles < MAX_CYCLES
            invariant
                self.wf(),
                start == (CPU { step_cycles: 0, ..*old(self) }),
                start.spec_boot_frame() == self.spec_boot_frame(),
                start.spec_boot_fault() == self.spec_boot_fault(),
            decreases MAX_CYCLES + 24 - self.step_cycles,
        {
            let spent: u32 = self.step_cycles;
            let ghost before = *self;
            match self.turn() {
                Ok(cycles) => {
                    self.step_cycles = spent + cycles;
                    if self.boot_done() {
                        let ghost after = *self;
                        self.bus.run_bootrom = false;
                        self.initialize_system();
                        assert(before.spec_boot_frame() == after.spec_hand_over());
                        assert(before.spec_boot_fault() == None::<EmulatorError>);
                        return Ok(());
                    }
                    assert(before.spec_boot_frame() == self.spec_boot_frame());
                    assert(before.spec_boot_fault() == self.spec_boot_fault());
                },
                Err(e) => {
                    assert(before.spec_boot_frame() == before.spec_ready());
                    assert(before.spec_boot_fault() == Some(e));
                    return Err(e);
                },
            }
        }
        Ok(())
    }
}

} // verus!
