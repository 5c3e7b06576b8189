//! The machine state: the flat byte memory and the register file.

pub mod cpu;
pub mod memory;
