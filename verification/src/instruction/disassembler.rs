//! The decoder: from a raw instruction to one that can be executed.

use crate::instruction::instruction::{ExecutableInstruction, Instruction, InstructionType};
use crate::instruction::jump_instruction::JumpInstruction;
use crate::machine::cpu::{CpuState, ExecutionResult, CPU};
use vstd::prelude::*;

verus! {

/// The three instruction families, told apart by the top three bits of the
/// opcode word.
#[derive(Clone, Copy, Debug, PartialEq, Eq, Structural)]
pub enum InstructionFamily {
    SingleOperand,
    Jump,
    DoubleOperand,
}

/// The family of the opcode word `value`: 0 in the top three bits is a
/// single-operand instruction, 1 a jump, 2 to 7 a double-operand instruction.
pub open spec fn family_of(value: u16) -> InstructionFamily {
    if value >> 13 == 0 {
        InstructionFamily::SingleOperand
    } else if value >> 13 == 1 {
        InstructionFamily::Jump
    } else {
        InstructionFamily::DoubleOperand
    }
}

/// A decoded instruction of any family that has an execution unit.
#[derive(Clone, Copy, Debug, PartialEq, Eq, Structural)]
pub enum Executable {
    Jump(JumpInstruction),
}

impl ExecutableInstruction for Executable {
    open spec fn extensions(&self) -> u16 {
        match self {
            Executable::Jump(jump) => jump.extensions(),
        }
    }

    open spec fn instruction_type(&self) -> InstructionType {
        match self {
            Executable::Jump(jump) => jump.instruction_type(),
        }
    }

    open spec fn instruction_raw(&self) -> Instruction {
        match self {
            Executable::Jump(jump) => jump.instruction_raw(),
        }
    }

    open spec fn executed(&self, state: CpuState) -> CpuState {
        match self {
            Executable::Jump(jump) => jump.executed(state),
        }
    }

    open spec fn outcome(&self, state: CpuState) -> ExecutionResult {
        match self {
            Executable::Jump(jump) => jump.outcome(state),
        }
    }

    fn get_extensions_amount(&self) -> (amount: u16) {
        match self {
            Executable::Jump(jump) => jump.get_extensions_amount(),
        }
    }

    fn execute(&self, cpu: &mut CPU) -> (result: ExecutionResult) {
        match self {
            Executable::Jump(jump) => jump.execute(cpu),
        }
    }

    fn get_instruction_type(&self) -> (mnemonic: InstructionType) {
        match self {
            Executable::Jump(jump) => jump.get_instruction_type(),
        }
    }

    fn get_instruction_raw(&self) -> (raw: Instruction) {
        match self {
            Executable::Jump(jump) => jump.get_instruction_raw(),
        }
    }
}

/// The outcome of decoding one instruction.
#[derive(Clone, Copy, Debug, PartialEq, Eq, Structural)]
pub enum ParseState {
    /// The instruction, ready to be executed.
    Done(Executable),
    /// The raw instruction, which could not be decoded.
    Error(Instruction),
}

/// What `instruction` decodes to. Only the jumps have an execution unit: an
/// instruction of another family is an error that carries it unchanged.
pub open spec fn decoded(instruction: Instruction) -> ParseState {
    match family_of(instruction.value) {
        InstructionFamily::Jump => ParseState::Done(
            Executable::Jump(JumpInstruction::decoded(instruction)),
        ),
        _ => ParseState::Error(instruction),
    }
}

/// The family of the opcode word `value`.
pub fn get_instruction_family(value: u16) -> (family: InstructionFamily)
    ensures
        family == family_of(value),
{
    match value >> 13 {
        0 => InstructionFamily::SingleOperand,
        1 => InstructionFamily::Jump,
        _ => InstructionFamily::DoubleOperand,
    }
}

/// Decodes `instruction` by the family of its opcode word. The processor is
/// there for the decoders that resolve operands; it is not changed.
pub fn parse_instruction(cpu: &CPU, instruction: Instruction) -> (state: ParseState)
    ensures
        state == decoded(instruction),
{
    match get_instruction_family(instruction.get_value()) {
        InstructionFamily::Jump => JumpInstruction::new(instruction),
        _ => ParseState::Error(instruction),
    }
}

} // verus!
