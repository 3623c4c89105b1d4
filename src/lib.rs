//! An emulator of the MOS 6502 processor, with a small assembler for its instruction set.
pub mod assembler;
pub mod emulator;
pub mod memory;
