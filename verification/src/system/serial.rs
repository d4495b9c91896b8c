//! The serial port's two registers. No transfer ever takes place.

use vstd::prelude::*;

verus! {

pub const SERIAL_DATA: usize = 0xFF01;

pub const SERIAL_CONTROL: usize = 0xFF02;

#[derive(Clone, Copy, Debug, PartialEq, Eq)]
pub struct Serial {
    pub data: u8,
    pub control: u8,
}

impl Serial {
    /// What a read at `address` returns: the register there, or zero where
    /// there is none.
    pub open spec fn spec_read(self, address: usize) -> u8 {
        if address == SERIAL_DATA {
            self.data
        } else if address == SERIAL_CONTROL {
            self.control
        } else {
            0
        }
    }

    /// The port after a write; an address that is not one of its two
    /// registers changes nothing.
    pub open spec fn spec_write(self, address: usize, value: u8) -> Serial {
        if address == SERIAL_DATA {
            Serial { data: value, ..self }
        } else if address == SERIAL_CONTROL {
            Serial { control: value, ..self }
        } else {
            self
        }
    }

    pub fn new() -> (r: Serial)
        ensures
            r == (Serial { data: 0, control: 0 }),
    {
        Serial { data: 0x00, control: 0x00 }
    }

    pub fn read_serial(&self, address: usize) -> (r: u8)
        ensures
            r == self.spec_read(address),
    {
        if address == SERIAL_DATA {
            self.data
        } else if address == SERIAL_CONTROL {
            self.control
        } else {
            0x00
        }
    }

    pub fn write_serial(&mut self, address: usize, value: u8)
        ensures
            *final(self) == old(self).spec_write(address, value),
    {
        if address == SERIAL_DATA {
            self.data = value;
        } else if address == SERIAL_CONTROL {
            self.control = value;
        }
    }
}

} // verus!
