//! A virtual machine for the LC-3 instruction set: registers, memory,
//! instruction decoding and the per-opcode semantics, each with a contract.

pub mod bits;
pub mod flags;
pub mod memory;
pub mod registers;
pub mod decode;
pub mod instructions;
pub mod machine;
pub mod image;
