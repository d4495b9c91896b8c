//! The divider and the programmable timer.

use super::interrupts::{Interrupt, Interrupts};
use vstd::prelude::*;

verus! {

pub const DIVIDER_REGISTER: usize = 0xFF04;

pub const TIMA: usize = 0xFF05;

pub const TMA: usize = 0xFF06;

pub const TAC: usize = 0xFF07;

/// Processor cycles in one frame.
pub const MAX_CYCLES: u32 = 69905;

/// DIV, TIMA, TMA and the decoded TAC, with the two cycle accumulators that
/// feed DIV and TIMA.
#[derive(Clone, Copy, Debug, PartialEq, Eq)]
pub struct Timer {
    pub tima: u8,
    pub clock_counter: u32,
    pub divider_register: u8,
    pub divider_counter: u32,
    pub tma: u8,
    pub input_clock_speed: u32,
    pub clock_enabled: bool,
}

/// The period in cycles that the low two bits of TAC select.
pub open spec fn spec_period(select: u8) -> u32 {
    if select % 4 == 0 {
        1024
    } else if select % 4 == 1 {
        16
    } else if select % 4 == 2 {
        64
    } else {
        256
    }
}

/// TIMA after `n` increments, and whether one of them overflowed. An
/// increment from 0xFF reloads TIMA from TMA.
pub open spec fn spec_tima_advance(tima: u8, tma: u8, n: nat) -> (u8, bool)
    decreases n,
{
    if n == 0 {
        (tima, false)
    } else {
        let next: u8 = if tima == 0xFF {
            tma
        } else {
            (tima + 1) as u8
        };
        let rest = spec_tima_advance(next, tma, (n - 1) as nat);
        (rest.0, rest.1 || tima == 0xFF)
    }
}

impl Timer {
    /// The period is one of the four that TAC can select.
    pub open spec fn wf(self) -> bool {
        self.input_clock_speed == 16 || self.input_clock_speed == 64
            || self.input_clock_speed == 256 || self.input_clock_speed == 1024
    }

    /// The timer after `cycles` more cycles. DIV gains one for every 256
    /// cycles that the divider accumulator has gathered; while the timer is
    /// enabled TIMA gains one for every full period.
    pub open spec fn spec_update(self, cycles: u32) -> Timer {
        let div_total = self.divider_counter + cycles;
        let clock_total = self.clock_counter + cycles;
        let steps = (clock_total / (self.input_clock_speed as int)) as nat;
        Timer {
            divider_register: ((self.divider_register + div_total / 256) % 256) as u8,
            divider_counter: (div_total % 256) as u32,
            clock_counter: if self.clock_enabled {
                (clock_total % (self.input_clock_speed as int)) as u32
            } else {
                self.clock_counter
            },
            tima: if self.clock_enabled {
                spec_tima_advance(self.tima, self.tma, steps).0
            } else {
                self.tima
            },
            ..self
        }
    }

    /// Whether TIMA overflows within the next `cycles` cycles.
    pub open spec fn spec_overflows(self, cycles: u32) -> bool {
        let clock_total = self.clock_counter + cycles;
        let steps = (clock_total / (self.input_clock_speed as int)) as nat;
        self.clock_enabled && spec_tima_advance(self.tima, self.tma, steps).1
    }

    /// The timer after a write to TAC: bit 2 enables, bits 0 and 1 select the
    /// period.
    pub open spec fn spec_set_control(self, value: u8) -> Timer {
        Timer {
            clock_enabled: value / 4 % 2 == 1,
            input_clock_speed: spec_period(value),
            ..self
        }
    }

    /// TAC as it reads back: the enable bit and the period's code.
    pub open spec fn spec_control(self) -> u8 {
        let speed: u8 = if self.input_clock_speed == 16 {
            1
        } else if self.input_clock_speed == 64 {
            2
        } else if self.input_clock_speed == 256 {
            3
        } else {
            0
        };
        (if self.clock_enabled {
            4 + speed
        } else {
            speed as int
        }) as u8
    }

    /// Tells whether the timer is in order.
    pub fn is_valid(&self) -> (r: bool)
        ensures
            r == self.wf(),
    {
        self.input_clock_speed == 16 || self.input_clock_speed == 64 || self.input_clock_speed
            == 256 || self.input_clock_speed == 1024
    }

    /// The timer at power-on: stopped, the slowest period selected, and one
    /// such period already gathered.
    pub fn new() -> (r: Timer)
        ensures
            r == (Timer {
                tima: 0,
                clock_counter: 1024,
                divider_register: 0,
                divider_counter: 0,
                tma: 0,
                input_clock_speed: 1024,
                clock_enabled: false,
            }),
            r.wf(),
    {
        Timer {
            tima: 0,
            divider_register: 0,
            divider_counter: 0,
            tma: 0,
            clock_counter: 1024,
            input_clock_speed: 1024,
            clock_enabled: false,
        }
    }

    /// Advances the divider and the timer by `cycles` and requests the Timer
    /// interrupt if TIMA overflowed on the way.
    pub fn update_timers(&mut self, cycles: u32, irq: &mut Interrupt)
        requires
            old(self).wf(),
        ensures
            *final(self) == old(self).spec_update(cycles),
            *final(irq) == old(irq).spec_request_if(
                old(self).spec_overflows(cycles),
                Interrupts::Timer,
            ),
            final(self).wf(),
    {
        let div_total: u64 = self.divider_counter as u64 + cycles as u64;
        self.divider_register = ((self.divider_register as u64 + div_total / 256) % 256) as u8;
        self.divider_counter = (div_total % 256) as u32;

        if self.clock_enabled {
            let clock_total: u64 = self.clock_counter as u64 + cycles as u64;
            let steps: u64 = clock_total / (self.input_clock_speed as u64);
            self.clock_counter = (clock_total % (self.input_clock_speed as u64)) as u32;
            let ghost start = self.tima;
            let mut overflowed = false;
            let mut i: u64 = 0;
            while i < steps
                invariant
                    i <= steps,
                    self.tma == old(self).tma,
                    self.clock_enabled == old(self).clock_enabled,
                    self.input_clock_speed == old(self).input_clock_speed,
                    self.clock_counter == (clock_total % (old(self).input_clock_speed as u64)),
                    self.divider_register == old(self).spec_update(cycles).divider_register,
                    self.divider_counter == old(self).spec_update(cycles).divider_counter,
                    spec_tima_advance(start, self.tma, steps as nat).0 == spec_tima_advance(
                        self.tima,
                        self.tma,
                        (steps - i) as nat,
                    ).0,
                    spec_tima_advance(start, self.tma, steps as nat).1 == (overflowed
                        || spec_tima_advance(self.tima, self.tma, (steps - i) as nat).1),
                decreases steps - i,
            {
                if self.tima == 0xFF {
                    self.tima = self.tma;
                    overflowed = true;
                } else {
                    self.tima = self.tima + 1;
                }
                i = i + 1;
            }
            if overflowed {
                irq.set_interrupt(Interrupts::Timer);
            }
        }
    }

    /// Writes TAC.
    pub fn set_control(&mut self, value: u8)
        ensures
            *final(self) == old(self).spec_set_control(value),
            final(self).wf(),
    {
        self.clock_enabled = value / 4 % 2 == 1;
        let select: u8 = value % 4;
        self.input_clock_speed = if select == 0 {
            1024
        } else if select == 1 {
            16
        } else if select == 2 {
            64
        } else {
            256
        };
    }

    /// Reads TAC.
    pub fn control(&self) -> (r: u8)
        ensures
            r == self.spec_control(),
    {
        let speed: u8 = if self.input_clock_speed == 16 {
            1
        } else if self.input_clock_speed == 64 {
            2
        } else if self.input_clock_speed == 256 {
            3
        } else {
            0
        };
        if self.clock_enabled {
            4 + speed
        } else {
            speed
        }
    }
}

/// When TIMA stands at 0xFF and the cycles given complete exactly one period,
/// TIMA is reloaded from TMA and the Timer interrupt is requested by that
/// same update.
pub proof fn lemma_tima_overflow_reloads(timer: Timer, irq: Interrupt, cycles: u32)
    requires
        timer.wf(),
        timer.clock_enabled,
        timer.tima == 0xFF,
        (timer.clock_counter + cycles) / (timer.input_clock_speed as int) == 1,
    ensures
        timer.spec_update(cycles).tima == timer.tma,
        timer.spec_overflows(cycles),
        irq.spec_request_if(timer.spec_overflows(cycles), Interrupts::Timer).interrupt_flag
            == irq.interrupt_flag | 0x04,
{
    reveal_with_fuel(spec_tima_advance, 3);
}

/// TIMA cannot pass 0xFF without overflowing: an update that makes at least
/// `0x100 - TIMA` increments requests the interrupt.
pub proof fn lemma_tima_overflow_is_reported(tima: u8, tma: u8, n: nat)
    requires
        n >= 0x100 - tima,
    ensures
        spec_tima_advance(tima, tma, n).1,
    decreases n,
{
    if tima != 0xFF {
        lemma_tima_overflow_is_reported((tima + 1) as u8, tma, (n - 1) as nat);
    }
}

/// What is written to the low three bits of TAC is read back.
pub proof fn lemma_control_round_trip(timer: Timer, value: u8)
    ensures
        timer.spec_set_control(value).spec_control() == value % 8,
{
}

/// It makes no difference to the divider in how many updates the cycles
/// come; and once the divider's accumulator is below 256, as it is after any
/// update, DIV goes up by one with every 256 cycles, round its eight bits.
pub proof fn lemma_div_counts_cycles(timer: Timer, first: u32, second: u32)
    requires
        first + second <= u32::MAX,
    ensures
        timer.spec_update(first).divider_counter < 256,
        timer.divider_counter < 256 ==> timer.spec_update(256).divider_register == (
        timer.divider_register + 1) % 256,
        timer.divider_counter < 256 ==> timer.spec_update(256).divider_counter
            == timer.divider_counter,
        timer.spec_update(first).spec_update(second).divider_register == timer.spec_update(
            (first + second) as u32,
        ).divider_register,
        timer.spec_update(first).spec_update(second).divider_counter == timer.spec_update(
            (first + second) as u32,
        ).divider_counter,
{
    let total = timer.divider_counter + first;
    let rest = total % 256;
    assert((rest + second) / 256 + total / 256 == (total + second) / 256);
}

} // verus!
