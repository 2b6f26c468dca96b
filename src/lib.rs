//! Cycle-accurate emulation of a 65C02-class 8-bit processor and its 64 KiB bus.

pub mod cpu;
pub mod memory;
pub mod test_utils;
