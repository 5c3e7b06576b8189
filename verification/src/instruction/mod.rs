//! Instructions: raw opcode words, addressing modes, decoding and execution.

pub mod disassembler;
pub mod instruction;
pub mod jump_instruction;
