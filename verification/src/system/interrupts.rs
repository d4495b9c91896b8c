//! The interrupt controller: IE, IF, the master enable and its delay latch.

use super::bits::{bit, clear_bit, spec_bit, spec_clear_bit};
use vstd::prelude::*;

verus! {

pub const INTERRUPT_FLAG: usize = 0xFF0F;

pub const INTERRUPT_ENABLE: usize = 0xFFFF;

/// IE and IF with the master enable. Only the low five bits of IE and IF
/// name a source; `interrupt_delay` is set by EI and cleared when the master
/// enable follows.
#[derive(Clone, Copy, Debug, PartialEq, Eq)]
pub struct Interrupt {
    pub interrupt_enable: u8,
    pub interrupt_flag: u8,
    pub interrupt_master_enable: bool,
    pub interrupt_delay: bool,
}

/// The sources that the core raises. Bit 3, the serial link, is never raised.
#[derive(Clone, Copy, Debug, PartialEq, Eq)]
pub enum Interrupts {
    VBlank,
    LCDStat,
    Timer,
    Joypad,
}

impl Interrupts {
    /// The bit of IF and IE that stands for the source.
    pub open spec fn spec_mask(self) -> u8 {
        match self {
            Interrupts::VBlank => 0x01,
            Interrupts::LCDStat => 0x02,
            Interrupts::Timer => 0x04,
            Interrupts::Joypad => 0x10,
        }
    }

    pub fn mask(self) -> (r: u8)
        ensures
            r == self.spec_mask(),
    {
        match self {
            Interrupts::VBlank => 0x01,
            Interrupts::LCDStat => 0x02,
            Interrupts::Timer => 0x04,
            Interrupts::Joypad => 0x10,
        }
    }
}

impl Interrupt {
    /// The controller with the source's bit set in IF.
    pub open spec fn spec_request(self, interrupt: Interrupts) -> Interrupt {
        Interrupt { interrupt_flag: self.interrupt_flag | interrupt.spec_mask(), ..self }
    }

    /// The controller with the source's bit set in IF if `raise` holds, and
    /// unchanged otherwise.
    pub open spec fn spec_request_if(self, raise: bool, interrupt: Interrupts) -> Interrupt {
        if raise {
            self.spec_request(interrupt)
        } else {
            self
        }
    }

    /// The sources that are both enabled and requested.
    pub open spec fn spec_pending(self) -> u8 {
        self.interrupt_enable & self.interrupt_flag & 0x1F
    }

    /// Whether source `k` is both enabled and requested.
    pub open spec fn spec_source_pending(self, k: int) -> bool {
        spec_bit(self.interrupt_enable, k) && spec_bit(self.interrupt_flag, k)
    }

    /// The pending source with the lowest number, which is served first.
    pub open spec fn spec_lowest_pending(self) -> Option<u8> {
        if self.spec_source_pending(0) {
            Some(0u8)
        } else if self.spec_source_pending(1) {
            Some(1u8)
        } else if self.spec_source_pending(2) {
            Some(2u8)
        } else if self.spec_source_pending(3) {
            Some(3u8)
        } else if self.spec_source_pending(4) {
            Some(4u8)
        } else {
            None
        }
    }

    /// The controller after source `k` has been taken up: its request is
    /// cleared and the master enable is off.
    pub open spec fn spec_acknowledge(self, k: u8) -> Interrupt {
        Interrupt {
            interrupt_flag: spec_clear_bit(self.interrupt_flag, k as int),
            interrupt_master_enable: false,
            ..self
        }
    }

    /// Nothing enabled, nothing requested, master enable on.
    pub fn new() -> (r: Interrupt)
        ensures
            r == (Interrupt {
                interrupt_enable: 0,
                interrupt_flag: 0,
                interrupt_master_enable: true,
                interrupt_delay: false,
            }),
    {
        Interrupt {
            interrupt_enable: 0,
            interrupt_flag: 0,
            interrupt_master_enable: true,
            interrupt_delay: false,
        }
    }

    /// Requests an interrupt: sets its bit in IF.
    pub fn set_interrupt(&mut self, interrupt: Interrupts)
        ensures
            *final(self) == old(self).spec_request(interrupt),
    {
        let mask: u8 = interrupt.mask();
        self.interrupt_flag = self.interrupt_flag | mask;
    }

    /// The pending source to serve next, if any is pending.
    pub fn lowest_pending(&self) -> (r: Option<u8>)
        ensures
            r == self.spec_lowest_pending(),
            r is Some ==> r->0 < 5,
    {
        let mut k: u8 = 0;
        while k < 5
            invariant
                k <= 5,
                forall|j: int| 0 <= j < k ==> !self.spec_source_pending(j),
            decreases 5 - k,
        {
            if bit(self.interrupt_enable, k) && bit(self.interrupt_flag, k) {
                return Some(k);
            }
            k = k + 1;
        }
        None
    }

    /// Takes up source `k`.
    pub fn acknowledge(&mut self, k: u8)
        ensures
            *final(self) == old(self).spec_acknowledge(k),
    {
        self.interrupt_flag = clear_bit(self.interrupt_flag, k);
        self.interrupt_master_enable = false;
    }

    /// The enabled and requested sources, as a mask of five bits.
    pub fn pending(&self) -> (r: u8)
        ensures
            r == self.spec_pending(),
            r < 0x20,
    {
        let r: u8 = self.interrupt_enable & self.interrupt_flag & 0x1F;
        let ghost x: u8 = self.interrupt_enable & self.interrupt_flag;
        assert(x & 0x1F < 0x20) by (bit_vector);
        r
    }
}

/// A request is seen in IF at once, keeps every earlier request, and leaves
/// the rest of the controller alone.
pub proof fn lemma_request_sets_bit(irq: Interrupt, interrupt: Interrupts)
    ensures
        irq.spec_request(interrupt).interrupt_flag & interrupt.spec_mask()
            == interrupt.spec_mask(),
        irq.spec_request(interrupt).interrupt_flag & irq.interrupt_flag == irq.interrupt_flag,
        irq.spec_request(interrupt).interrupt_enable == irq.interrupt_enable,
        irq.spec_request(interrupt).interrupt_master_enable == irq.interrupt_master_enable,
{
    let f = irq.interrupt_flag;
    let m = interrupt.spec_mask();
    assert((f | m) & m == m && (f | m) & f == f) by (bit_vector);
}

/// A source is pending exactly when the mask of pending sources is not zero.
pub proof fn lemma_pending_is_mask(irq: Interrupt)
    ensures
        irq.spec_lowest_pending() is Some <==> irq.spec_pending() != 0,
{
    let e = irq.interrupt_enable;
    let f = irq.interrupt_flag;
    assert((e & f & 0x1F != 0) == ((e % 2 == 1 && f % 2 == 1) || (e / 2 % 2 == 1 && f / 2 % 2
        == 1) || (e / 4 % 2 == 1 && f / 4 % 2 == 1) || (e / 8 % 2 == 1 && f / 8 % 2 == 1) || (e
        / 16 % 2 == 1 && f / 16 % 2 == 1))) by (bit_vector);
}

} // verus!
