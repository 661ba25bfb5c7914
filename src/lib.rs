//! An interpreter for the CHIP-8 virtual machine: instruction decoding, a
//! monochrome 64x32 display with XOR drawing, and the machine core that
//! fetches, decodes and executes one instruction per cycle.
pub mod display;
pub mod error;
pub mod instruction;
pub mod laws;
pub mod machine;
pub mod opcode;
pub mod rom;
pub mod semantics;

pub use display::{HEIGHT, WIDTH};
pub use machine::Chip8;
