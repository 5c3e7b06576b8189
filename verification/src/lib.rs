//! A functional simulator for an MSP430-class 16-bit microcontroller core.
//!
//! [`machine`] holds the state: the flat byte memory and the register file
//! with its status flags. [`instruction`] holds what turns memory words into
//! state changes: the addressing modes, the operand access, the decoder and
//! the branch unit.

pub mod instruction;
pub mod machine;
