//! A cycle-counting emulator of the core of an 8-bit 6502-family processor,
//! with every instruction's effect stated over a model of its registers and
//! of a flat 64 KiB memory.
pub mod bus;
pub mod cpu;

pub use bus::Bus;
pub use cpu::CPU;
