//! The instruction-processing core of an 8-bit handheld console CPU: an
//! address space with mirrored RAM, a register file with paired views, an
//! instruction decoder and an executor, each specified over a mathematical
//! model of the machine state.
pub mod cpu;
pub mod instructions;
pub mod memory;
