//! The commands of the disassembler.

pub mod disassemble;
