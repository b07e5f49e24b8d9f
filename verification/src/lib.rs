//! Processor core of an 8-bit handheld-console emulator.
//!
//! The crate holds the machine state of one emulated processor — eight 8-bit
//! registers, a 16-bit stack pointer and program counter — and executes
//! individual instructions as pure state transitions.  The four status flags
//! (zero, subtraction, half-carry, carry) live packed in the upper nibble of
//! the `f` register and are read and written one at a time, never disturbing
//! one another.
//!
//! Module map:
//! - [`flags`]: the packed flag view over a flag-register byte;
//! - [`wide`]: the 16-bit view over a pair of 8-bit registers;
//! - [`alu`]: the arithmetic results and flag rules of the instruction set;
//! - [`cpu`]: the register file and the instruction handlers.

pub mod alu;
pub mod cpu;
pub mod flags;
pub mod wide;
