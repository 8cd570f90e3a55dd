//! Core of a Game Boy / Game Boy Color emulator with Pocket Camera support.

pub mod bits;
pub mod bus;
pub mod cpu;
pub mod error;
pub mod interrupts;
pub mod joypad;
pub mod log;
pub mod memory;
pub mod ppu;
pub mod romgen;
pub mod system;
pub mod timer;
