//! Execution core of a Game Boy / Game Boy Color emulator: processor, memory
//! bus with cartridge mappers, pixel pipeline, timer and interrupt controller.
//!
//! Every state transition is given as a specification function on the
//! component's own state, and the executable code is proved to compute it.

pub mod system;
