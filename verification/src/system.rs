//! The machine, leaves first.

pub mod alu;
pub mod audio;
pub mod bits;
pub mod boot;
pub mod bus;
pub mod cartridge;
pub mod cpu;
pub mod error;
pub mod execute;
pub mod frame;
pub mod gpu;
pub mod hdma;
pub mod instructions;
pub mod interrupts;
pub mod joypad;
pub mod lcd;
pub mod memory;
pub mod registers;
pub mod render;
pub mod rtc;
pub mod serial;
pub mod timer;
pub mod transfer;
