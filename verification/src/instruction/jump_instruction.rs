//! The conditional jumps.
//!
//! A jump opcode holds a condition in bits 10 to 12 and a signed
//! displacement, counted in words, in bits 0 to 9. A jump that is taken adds
//! twice the displacement to the program counter, which by then points behind
//! the opcode word.

use crate::instruction::disassembler::{Executable, ParseState};
use crate::instruction::instruction::{ExecutableInstruction, Instruction, InstructionType};
use crate::machine::cpu::{flag_is_set, CpuState, ExecutionResult, StatusFlag, CPU};
use vstd::prelude::*;

verus! {

/// The condition under which a jump is taken.
#[derive(Clone, Copy, Debug, PartialEq, Eq, Structural)]
pub enum JumpType {
    /// Jump if the zero flag is clear.
    JNZ,
    /// Jump if the zero flag is set.
    JZ,
    /// Jump if the carry flag is clear.
    JNC,
    /// Jump if the carry flag is set.
    JC,
    /// Jump if the negative flag is clear. Beware: going by the mnemonic one
    /// would expect the jump when the flag is set.
    JN,
    /// Jump if the negative and the overflow flag are equal.
    JGE,
    /// Jump if the negative and the overflow flag differ.
    JL,
    /// Jump always.
    JMP,
    /// No condition.
    Unknown,
}

impl JumpType {
    /// The numeric code of the condition; the codes 0 to 7 are the values of
    /// the condition field of an opcode.
    pub open spec fn code(self) -> u16 {
        match self {
            JumpType::JNZ => 0,
            JumpType::JZ => 1,
            JumpType::JNC => 2,
            JumpType::JC => 3,
            JumpType::JN => 4,
            JumpType::JGE => 5,
            JumpType::JL => 6,
            JumpType::JMP => 7,
            JumpType::Unknown => 8,
        }
    }

    /// The condition with the numeric code `code`, if there is one.
    pub open spec fn of_code(code: u16) -> Option<JumpType> {
        match code {
            0 => Some(JumpType::JNZ),
            1 => Some(JumpType::JZ),
            2 => Some(JumpType::JNC),
            3 => Some(JumpType::JC),
            4 => Some(JumpType::JN),
            5 => Some(JumpType::JGE),
            6 => Some(JumpType::JL),
            7 => Some(JumpType::JMP),
            8 => Some(JumpType::Unknown),
            _ => None,
        }
    }

    /// The mnemonic of a jump with this condition.
    pub open spec fn mnemonic(self) -> InstructionType {
        match self {
            JumpType::JNZ => InstructionType::JNZ,
            JumpType::JZ => InstructionType::JZ,
            JumpType::JNC => InstructionType::JNC,
            JumpType::JC => InstructionType::JC,
            JumpType::JN => InstructionType::JN,
            JumpType::JGE => InstructionType::JGE,
            JumpType::JL => InstructionType::JL,
            JumpType::JMP => InstructionType::JMP,
            JumpType::Unknown => InstructionType::Unknown,
        }
    }

    /// Whether a jump with this condition is taken when the status register
    /// holds `sr`. `JN` is taken when the negative flag is clear, not when it
    /// is set.
    pub open spec fn holds(self, sr: u16) -> bool {
        match self {
            JumpType::JNZ => !flag_is_set(sr, StatusFlag::ZeroFlag.mask()),
            JumpType::JZ => flag_is_set(sr, StatusFlag::ZeroFlag.mask()),
            JumpType::JNC => !flag_is_set(sr, StatusFlag::CarryFlag.mask()),
            JumpType::JC => flag_is_set(sr, StatusFlag::CarryFlag.mask()),
            JumpType::JN => !flag_is_set(sr, StatusFlag::NegativeFlag.mask()),
            JumpType::JGE => flag_is_set(sr, StatusFlag::NegativeFlag.mask()) == flag_is_set(
                sr,
                StatusFlag::OverflowFlag.mask(),
            ),
            JumpType::JL => flag_is_set(sr, StatusFlag::NegativeFlag.mask()) != flag_is_set(
                sr,
                StatusFlag::OverflowFlag.mask(),
            ),
            JumpType::JMP => true,
            JumpType::Unknown => false,
        }
    }

    /// The condition with the numeric code `code`, or `None` where no
    /// condition has that code.
    pub fn from_u16(code: u16) -> (condition: Option<JumpType>)
        ensures
            condition == JumpType::of_code(code),
    {
        match code {
            0 => Some(JumpType::JNZ),
            1 => Some(JumpType::JZ),
            2 => Some(JumpType::JNC),
            3 => Some(JumpType::JC),
            4 => Some(JumpType::JN),
            5 => Some(JumpType::JGE),
            6 => Some(JumpType::JL),
            7 => Some(JumpType::JMP),
            8 => Some(JumpType::Unknown),
            _ => None,
        }
    }

    /// The numeric code of the condition.
    pub fn to_u16(&self) -> (code: u16)
        ensures
            code == self.code(),
    {
        match self {
            JumpType::JNZ => 0,
            JumpType::JZ => 1,
            JumpType::JNC => 2,
            JumpType::JC => 3,
            JumpType::JN => 4,
            JumpType::JGE => 5,
            JumpType::JL => 6,
            JumpType::JMP => 7,
            JumpType::Unknown => 8,
        }
    }
}

/// The condition field of a jump opcode: bits 10 to 12.
pub open spec fn condition_field(value: u16) -> u16 {
    (value >> 10) & 0b111
}

/// The displacement field of a jump opcode: bits 0 to 9.
pub open spec fn displacement_field(value: u16) -> u16 {
    value & 0x3ff
}

/// The condition of a jump opcode. Every value of the condition field names
/// one, so it is never `Unknown`.
pub open spec fn condition_of(value: u16) -> JumpType {
    match JumpType::of_code(condition_field(value)) {
        Some(condition) => condition,
        None => JumpType::Unknown,
    }
}

/// The ten-bit field `raw` read as a two's-complement number: a field with
/// bit 9 set stands for itself less `0x400`. The result lies in `-512..=511`.
pub open spec fn sign_extended(raw: u16) -> i16 {
    if raw & 0x200 != 0 {
        (raw - 0x400) as i16
    } else {
        raw as i16
    }
}

/// The displacement of a jump opcode, in words.
pub open spec fn displacement_of(value: u16) -> i16 {
    sign_extended(displacement_field(value))
}

/// The program counter after a taken jump: `offset` words away from `pc`,
/// wrapping at both ends of the address space.
pub open spec fn jump_target(pc: u16, offset: i16) -> u16 {
    ((pc + 2 * offset) % 0x1_0000) as u16
}

/// A decoded jump.
#[derive(Clone, Copy, Debug, PartialEq, Eq, Structural)]
pub struct JumpInstruction {
    pub instruction: Instruction,
    pub jump_type: JumpType,
    /// The displacement in words.
    pub offset: i16,
}

impl JumpInstruction {
    /// The jump that the opcode word of `instruction` encodes.
    pub open spec fn decoded(instruction: Instruction) -> JumpInstruction {
        JumpInstruction {
            instruction,
            jump_type: condition_of(instruction.value),
            offset: displacement_of(instruction.value),
        }
    }

    /// Decodes the opcode word of `instruction` as a jump. A jump whose
    /// condition were unknown would be a parse error; since all eight values
    /// of the condition field name a condition, decoding always succeeds.
    pub fn new(instruction: Instruction) -> (state: ParseState)
        ensures
            state == ParseState::Done(Executable::Jump(JumpInstruction::decoded(instruction))),
    {
        let value = instruction.get_value();
        let raw = value & 0x3ff;
        assert(raw < 0x400) by (bit_vector)
            requires
                raw == value & 0x3ff,
        ;
        let jump = JumpInstruction {
            jump_type: get_jump_from_instruction(value),
            offset: if raw & 0x200 != 0 {
                (raw as i32 - 0x400) as i16
            } else {
                raw as i16
            },
            instruction,
        };
        if jump.jump_type == JumpType::Unknown {
            return ParseState::Error(jump.instruction);
        }
        ParseState::Done(Executable::Jump(jump))
    }

    /// The condition of the jump.
    pub fn get_jump_type(&self) -> (jump_type: JumpType)
        ensures
            jump_type == self.jump_type,
    {
        self.jump_type
    }

    /// The opcode word the jump was decoded from, with its address.
    pub fn get_instruction(&self) -> (instruction: Instruction)
        ensures
            instruction == self.instruction,
    {
        self.instruction
    }
}

impl ExecutableInstruction for JumpInstruction {
    /// A jump has no extension words.
    open spec fn extensions(&self) -> u16 {
        0
    }

    open spec fn instruction_type(&self) -> InstructionType {
        self.jump_type.mnemonic()
    }

    open spec fn instruction_raw(&self) -> Instruction {
        self.instruction
    }

    /// A jump whose condition holds moves the program counter by `offset`
    /// words; any other leaves the state as it is.
    open spec fn executed(&self, state: CpuState) -> CpuState {
        if self.jump_type.holds(state.sr()) {
            state.with_register(0, jump_target(state.pc(), self.offset))
        } else {
            state
        }
    }

    /// A jump is done whether or not it is taken; one without a condition is
    /// a parse error that carries its opcode word.
    open spec fn outcome(&self, state: CpuState) -> ExecutionResult {
        if self.jump_type == JumpType::Unknown {
            ExecutionResult::ParseError(self.instruction)
        } else {
            ExecutionResult::Done
        }
    }

    fn get_extensions_amount(&self) -> (amount: u16) {
        0
    }

    fn execute(&self, cpu: &mut CPU) -> (result: ExecutionResult) {
        if self.jump_type == JumpType::Unknown {
            return ExecutionResult::ParseError(self.instruction);
        }
        let can_jump = match self.get_jump_type() {
            JumpType::JNZ => !cpu.is_flag_set(StatusFlag::ZeroFlag.mask()),
            JumpType::JZ => cpu.is_flag_set(StatusFlag::ZeroFlag.mask()),
            JumpType::JNC => !cpu.is_flag_set(StatusFlag::CarryFlag.mask()),
            JumpType::JC => cpu.is_flag_set(StatusFlag::CarryFlag.mask()),
            JumpType::JN => !cpu.is_flag_set(StatusFlag::NegativeFlag.mask()),
            JumpType::JGE => {
                cpu.is_flag_set(StatusFlag::NegativeFlag.mask()) == cpu.is_flag_set(
                    StatusFlag::OverflowFlag.mask(),
                )
            },
            JumpType::JL => {
                cpu.is_flag_set(StatusFlag::NegativeFlag.mask()) != cpu.is_flag_set(
                    StatusFlag::OverflowFlag.mask(),
                )
            },
            JumpType::JMP => true,
            _ => false,
        };
        if can_jump {
            let pc = cpu.get_pc();
            cpu.set_pc(pc.wrapping_add_signed(self.offset).wrapping_add_signed(self.offset));
        }
        ExecutionResult::Done
    }

    fn get_instruction_type(&self) -> (mnemonic: InstructionType) {
        let code = self.jump_type.to_u16();
        let type_id = (1 << 4) | code;
        assert(type_id == 16 + code) by (bit_vector)
            requires
                code <= 8,
                type_id == (1u16 << 4) | code,
        ;
        if (16u16 <= type_id) && (type_id < 31u16) {
            match InstructionType::from_u16(type_id) {
                Some(jump) => jump,
                None => InstructionType::Unknown,
            }
        } else {
            InstructionType::Unknown
        }
    }

    fn get_instruction_raw(&self) -> (raw: Instruction) {
        self.instruction
    }
}

/// The mnemonic of a jump has the code of its condition in the low bits and
/// bit 4 set, which puts the jumps at the codes `0x10..=0x17`.
pub proof fn lemma_jump_mnemonic_code(jump_type: JumpType)
    requires
        jump_type != JumpType::Unknown,
    ensures
        jump_type.mnemonic().code() == 0x10 + jump_type.code(),
        0x10 <= jump_type.mnemonic().code() <= 0x17,
        InstructionType::of_code((0x10 + jump_type.code()) as u16) == Some(jump_type.mnemonic()),
{
}

/// The displacement of every jump opcode lies in `-512..=511`, and it is the
/// displacement field itself or the field less `0x400`.
pub proof fn lemma_displacement_range(value: u16)
    ensures
        -512 <= displacement_of(value) <= 511,
        displacement_field(value) < 0x200 ==> displacement_of(value) == displacement_field(value),
        displacement_field(value) >= 0x200 ==> displacement_of(value) == displacement_field(value)
            - 0x400,
{
    let raw = displacement_field(value);
    assert(raw < 0x400) by (bit_vector)
        requires
            raw == value & 0x3ff,
    ;
    assert(raw & 0x200 != 0 <==> raw >= 0x200) by (bit_vector)
        requires
            raw < 0x400,
    ;
}

/// The condition of the jump opcode `value`, from bits 10 to 12.
pub fn get_jump_from_instruction(value: u16) -> (jump_type: JumpType)
    ensures
        jump_type == condition_of(value),
        jump_type != JumpType::Unknown,
{
    assert((value >> 10) & 0b111 < 8) by (bit_vector);
    match JumpType::from_u16((value >> 10) & 0b111) {
        Some(jump) => jump,
        None => JumpType::Unknown,
    }
}

} // verus!
