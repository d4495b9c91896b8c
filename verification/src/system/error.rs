//! What the core reports instead of going on.

use vstd::prelude::*;

verus! {

#[derive(Clone, Copy, Debug, PartialEq, Eq)]
pub enum EmulatorError {
    /// The image is shorter than its header, or the header names a size or a
    /// mapper that is not known, or a size that the image exceeds.
    InvalidHeader,
    /// The byte at the program counter is no instruction.
    UnimplementedOpcode { opcode: u8, prefixed: bool },
}

} // verus!
