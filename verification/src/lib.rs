//! Instruction-level emulator for an 8-bit microprocessor with a 64KB flat
//! address space (the MOS 6502 instruction set).
//!
//! The crate is organised around a mathematical model of the processor:
//! [`machine::Machine`] describes a machine state (registers, status flags
//! and the 65536-byte memory as a sequence), and [`machine::step_m`] gives
//! the meaning of executing one instruction on such a state.  The executable
//! processor [`cpu::CPU`] is proved to follow that model exactly: one call
//! of `step` performs precisely the transition `step_m` describes.

pub mod cpu;
pub mod flags;
pub mod isa;
pub mod laws;
pub mod machine;
