//! A toolchain for the Hack 16-bit computer: a two-pass assembler and a CPU
//! emulator that share one instruction format.

pub mod assembler;
pub mod emulator;
pub mod instruction;
pub mod laws;
pub mod text;
