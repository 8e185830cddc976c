//! A decoder and simulator for a subset of the 16-bit 8086 instruction set.
//!
//! [`decode`] turns machine code into [`Instruction`]s, [`text`] prints them
//! as assembler that reassembles to the same bytes, and [`exec`] runs them on
//! a model CPU with eight registers, two flags and 64 KiB of memory.
pub mod decode;
pub mod exec;
pub mod isa;
pub mod text;
pub mod word;

pub use isa::{Add, Cmp, EffectiveAddressCalc, Instruction, Mov, Opcode, Operand, Register, Sub, J};
pub use word::Word;
