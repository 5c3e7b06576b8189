//! Raw instructions, addressing modes and operand access.
//!
//! An operand is named by a register number and two mode bits. The resolvers
//! turn such a pair into an [`AddressingMode`], reading at most one extension
//! word from memory at a fixed offset from the program counter and changing
//! nothing. The operand access then reads or writes what the mode refers to.

use crate::machine::cpu::{CpuState, ExecutionResult, CPU, REGISTER_COUNT};
use crate::machine::memory::{lemma_store_then_read_word, store_word, word_at};
use vstd::prelude::*;

verus! {

/// An opcode word together with the address it was fetched from.
#[derive(Clone, Copy, Debug, PartialEq, Eq, Structural)]
pub struct Instruction {
    pub address: u16,
    pub value: u16,
}

impl Instruction {
    /// The instruction word `value` fetched from `address`.
    pub fn new(address: u16, value: u16) -> (instruction: Instruction)
        ensures
            instruction == (Instruction { address, value }),
    {
        Instruction { address, value }
    }

    /// The address the opcode word was fetched from.
    pub fn get_address(&self) -> (address: u16)
        ensures
            address == self.address,
    {
        self.address
    }

    /// The opcode word.
    pub fn get_value(&self) -> (value: u16)
        ensures
            value == self.value,
    {
        self.value
    }
}

/// Where an operand lives, or which constant it is.
#[derive(Clone, Copy, Debug, PartialEq, Eq, Structural)]
pub enum AddressingMode {
    /// The operand is the register itself.
    RegisterDirect(u16),
    /// The operand is the memory word at the register's value plus a signed
    /// displacement.
    RegisterIndexed(u16, i16),
    /// The operand is the memory word at the register's value.
    RegisterIndirect(u16),
    /// As `RegisterIndirect`; the instruction increments the register afterwards.
    RegisterIndirectAutoincrement(u16),
    /// The operand is the carried word.
    Immediate(u16),
    /// The operand is the memory word at the carried address.
    Absolute(u16),
    /// The constant 4.
    Constant4,
    /// The constant 8.
    Constant8,
    /// The constant 0.
    Constant0,
    /// The constant 1.
    ConstantP1,
    /// The constant 2.
    Constant2,
    /// The constant -1, the word `0xFFFF`.
    ConstantN1,
    /// The register and mode bits name no addressing mode.
    Unknown,
}

impl AddressingMode {
    /// A mode that names a register names one of the sixteen registers.
    pub open spec fn well_formed(self) -> bool {
        match self {
            AddressingMode::RegisterDirect(register) => register < REGISTER_COUNT,
            AddressingMode::RegisterIndexed(register, _) => register < REGISTER_COUNT,
            AddressingMode::RegisterIndirect(register) => register < REGISTER_COUNT,
            AddressingMode::RegisterIndirectAutoincrement(register) => register < REGISTER_COUNT,
            _ => true,
        }
    }

    /// Whether the operand takes an extension word after the opcode word:
    /// always for the indexed and absolute modes, and for the autoincrement
    /// mode on the program counter, which is how an immediate operand is
    /// encoded.
    pub open spec fn is_extension(self) -> bool {
        match self {
            AddressingMode::RegisterIndexed(_, _) => true,
            AddressingMode::Absolute(_) => true,
            AddressingMode::RegisterIndirectAutoincrement(register) => register == 0,
            _ => false,
        }
    }
}

/// The word `word` read as a two's-complement number.
pub open spec fn as_signed(word: u16) -> i16 {
    if word < 0x8000 {
        word as i16
    } else {
        (word - 0x1_0000) as i16
    }
}

/// The address `displacement` bytes away from `base`, wrapping at both ends
/// of the address space.
pub open spec fn indexed_address(base: u16, displacement: i16) -> u16 {
    ((base + displacement) % 0x1_0000) as u16
}

/// The extension word of a source operand: the word at the program counter.
pub open spec fn source_extension(state: CpuState) -> u16 {
    word_at(state.memory, state.pc())
}

/// The extension word of a destination operand: the word two bytes after the
/// program counter, wrapping at the end of memory.
pub open spec fn destination_extension(state: CpuState) -> u16 {
    word_at(state.memory, state.pc().wrapping_add(2))
}

/// The addressing mode that `register` and `mode_bits` name in the source
/// position.
///
/// Registers 2 and 3 are the constant generators: with them most mode bits
/// select a constant. Mode 3 on the program counter is an immediate operand.
/// Beware: mode 0 on register 2 resolves to register 0 in direct mode, so a
/// source operand that names the status register reads the program counter.
pub open spec fn resolve_source(state: CpuState, register: u16, mode_bits: u16) -> AddressingMode {
    if register == 2 {
        match mode_bits {
            0 => AddressingMode::RegisterDirect(0),
            1 => AddressingMode::Absolute(source_extension(state)),
            2 => AddressingMode::Constant4,
            3 => AddressingMode::Constant8,
            _ => AddressingMode::Unknown,
        }
    } else if register == 3 {
        match mode_bits {
            0 => AddressingMode::Constant0,
            1 => AddressingMode::ConstantP1,
            2 => AddressingMode::Constant2,
            3 => AddressingMode::ConstantN1,
            _ => AddressingMode::Unknown,
        }
    } else if register < 16 {
        match mode_bits {
            0 => AddressingMode::RegisterDirect(register),
            1 => AddressingMode::RegisterIndexed(register, as_signed(source_extension(state))),
            2 => AddressingMode::RegisterIndirect(register),
            3 => if register == 0 {
                AddressingMode::Immediate(source_extension(state))
            } else {
                AddressingMode::RegisterIndirectAutoincrement(register)
            },
            _ => AddressingMode::Unknown,
        }
    } else {
        AddressingMode::Unknown
    }
}

/// The addressing mode that `register` and `mode_bits` name in the
/// destination position. Only the direct and the indexed mode exist there;
/// the indexed mode on register 2 is absolute addressing.
pub open spec fn resolve_destination(
    state: CpuState,
    register: u16,
    mode_bits: u16,
) -> AddressingMode {
    if register == 2 && mode_bits == 1 {
        AddressingMode::Absolute(destination_extension(state))
    } else if register < 16 {
        match mode_bits {
            0 => AddressingMode::RegisterDirect(register),
            1 => AddressingMode::RegisterIndexed(register, as_signed(destination_extension(state))),
            _ => AddressingMode::Unknown,
        }
    } else {
        AddressingMode::Unknown
    }
}

/// The value of the operand that `mode` refers to.
pub open spec fn operand_value(state: CpuState, mode: AddressingMode) -> u16 {
    match mode {
        AddressingMode::RegisterDirect(register) => state.registers[register as int],
        AddressingMode::RegisterIndexed(register, displacement) => word_at(
            state.memory,
            indexed_address(state.registers[register as int], displacement),
        ),
        AddressingMode::RegisterIndirect(register) => word_at(
            state.memory,
            state.registers[register as int],
        ),
        AddressingMode::RegisterIndirectAutoincrement(register) => word_at(
            state.memory,
            state.registers[register as int],
        ),
        AddressingMode::Immediate(word) => word,
        AddressingMode::Absolute(address) => word_at(state.memory, address),
        AddressingMode::Constant4 => 4,
        AddressingMode::Constant8 => 8,
        AddressingMode::Constant0 => 0,
        AddressingMode::ConstantP1 => 1,
        AddressingMode::Constant2 => 2,
        AddressingMode::ConstantN1 => 0xFFFF,
        AddressingMode::Unknown => 0,
    }
}

/// The state after storing `value` in the operand that `mode` refers to.
///
/// A store to an immediate operand goes to the memory word at the program
/// counter. A store to a constant or to an unknown mode changes nothing.
pub open spec fn operand_stored(state: CpuState, mode: AddressingMode, value: u16) -> CpuState {
    match mode {
        AddressingMode::RegisterDirect(register) => state.with_register(register as int, value),
        AddressingMode::RegisterIndexed(register, displacement) => state.with_memory(
            store_word(
                state.memory,
                indexed_address(state.registers[register as int], displacement),
                value,
            ),
        ),
        AddressingMode::RegisterIndirect(register) => state.with_memory(
            store_word(state.memory, state.registers[register as int], value),
        ),
        AddressingMode::RegisterIndirectAutoincrement(register) => state.with_memory(
            store_word(state.memory, state.registers[register as int], value),
        ),
        AddressingMode::Immediate(_) => state.with_memory(
            store_word(state.memory, state.pc(), value),
        ),
        AddressingMode::Absolute(address) => state.with_memory(
            store_word(state.memory, address, value),
        ),
        _ => state,
    }
}

/// Reads a word as a two's-complement number.
fn word_as_signed(word: u16) -> (signed: i16)
    ensures
        signed == as_signed(word),
{
    if word < 0x8000 {
        word as i16
    } else {
        (word as i32 - 0x1_0000) as i16
    }
}

/// The word at the program counter.
fn get_word_at_pc(cpu: &CPU) -> (word: u16)
    ensures
        word == source_extension(cpu@),
{
    cpu.get_memory().get_word_be(cpu.get_pc())
}

/// The word two bytes after the program counter.
fn get_word_at_pc_next(cpu: &CPU) -> (word: u16)
    ensures
        word == destination_extension(cpu@),
{
    cpu.get_memory().get_word_be(cpu.get_pc().wrapping_add(2))
}

/// Resolves a source operand field.
///
/// The extension word, where the mode has one, is read from the address in
/// the program counter; the processor is not changed.
pub fn get_addressing_mode_source(cpu: &CPU, register: u16, source_mode: u16) -> (mode:
    AddressingMode)
    ensures
        mode == resolve_source(cpu@, register, source_mode),
        mode.well_formed(),
{
    match register {
        0 | 1 | 4..=15 => match source_mode {
            0 => AddressingMode::RegisterDirect(register),
            1 => AddressingMode::RegisterIndexed(register, word_as_signed(get_word_at_pc(cpu))),
            2 => AddressingMode::RegisterIndirect(register),
            3 => {
                if register == 0 {
                    AddressingMode::Immediate(get_word_at_pc(cpu))
                } else {
                    AddressingMode::RegisterIndirectAutoincrement(register)
                }
            },
            _ => AddressingMode::Unknown,
        },
        2 => match source_mode {
            0 => AddressingMode::RegisterDirect(0),
            1 => AddressingMode::Absolute(get_word_at_pc(cpu)),
            2 => AddressingMode::Constant4,
            3 => AddressingMode::Constant8,
            _ => AddressingMode::Unknown,
        },
        3 => match source_mode {
            0 => AddressingMode::Constant0,
            1 => AddressingMode::ConstantP1,
            2 => AddressingMode::Constant2,
            3 => AddressingMode::ConstantN1,
            _ => AddressingMode::Unknown,
        },
        _ => AddressingMode::Unknown,
    }
}

/// Resolves a destination operand field.
///
/// The extension word, where the mode has one, is read from the address two
/// bytes after the program counter, behind the place of a source extension
/// word; the processor is not changed.
pub fn get_addressing_mode_destination(cpu: &CPU, register: u16, destination_mode: u16) -> (mode:
    AddressingMode)
    ensures
        mode == resolve_destination(cpu@, register, destination_mode),
        mode.well_formed(),
{
    if register == 2 && destination_mode == 1 {
        return AddressingMode::Absolute(get_word_at_pc_next(cpu));
    }
    match register {
        0..=15 => match destination_mode {
            0 => AddressingMode::RegisterDirect(register),
            1 => AddressingMode::RegisterIndexed(
                register,
                word_as_signed(get_word_at_pc_next(cpu)),
            ),
            _ => AddressingMode::Unknown,
        },
        _ => AddressingMode::Unknown,
    }
}

/// Reads the operand that `mode` refers to.
///
/// The autoincrement mode reads like the indirect mode: incrementing the
/// register is left to the instruction. An unknown mode reads as 0.
pub fn get_value_from_mode(cpu: &CPU, mode: AddressingMode) -> (value: u16)
    requires
        mode.well_formed(),
    ensures
        value == operand_value(cpu@, mode),
{
    match mode {
        AddressingMode::RegisterDirect(register) => cpu.get_register(register as usize),
        AddressingMode::RegisterIndexed(register, word) => cpu.get_memory().get_word_be(
            cpu.get_register(register as usize).wrapping_add_signed(word),
        ),
        AddressingMode::RegisterIndirect(register)
        | AddressingMode::RegisterIndirectAutoincrement(register) => cpu.get_memory().get_word_be(
            cpu.get_register(register as usize),
        ),
        AddressingMode::Immediate(word) => word,
        AddressingMode::Absolute(address) => cpu.get_memory().get_word_be(address),
        AddressingMode::Constant4 => 4,
        AddressingMode::Constant8 => 8,
        AddressingMode::Constant0 => 0,
        AddressingMode::ConstantP1 => 1,
        AddressingMode::Constant2 => 2,
        AddressingMode::ConstantN1 => 0xFFFF,
        AddressingMode::Unknown => 0,
    }
}

/// Stores `value` in the operand that `mode` refers to.
///
/// No store fails: one to an immediate operand goes to the memory word at the
/// program counter, one to a constant or to an unknown mode is dropped.
pub fn set_value_from_mode(cpu: &mut CPU, mode: AddressingMode, value: u16)
    requires
        mode.well_formed(),
    ensures
        final(cpu)@ == operand_stored(old(cpu)@, mode, value),
{
    match mode {
        AddressingMode::RegisterDirect(register) => cpu.set_register(register as usize, value),
        AddressingMode::RegisterIndexed(register, word) => {
            let address = cpu.get_register(register as usize).wrapping_add_signed(word);
            cpu.get_memory_mut().set_word(address, value)
        },
        AddressingMode::RegisterIndirect(register)
        | AddressingMode::RegisterIndirectAutoincrement(register) => {
            let address = cpu.get_register(register as usize);
            cpu.get_memory_mut().set_word(address, value)
        },
        AddressingMode::Immediate(_) => {
            let address = cpu.get_pc();
            cpu.get_memory_mut().set_word(address, value)
        },
        AddressingMode::Absolute(address) => cpu.get_memory_mut().set_word(address, value),
        _ => {},
    }
}

/// Whether the operand that `mode` refers to takes an extension word.
pub fn is_addressing_mode_extension(mode: &AddressingMode) -> (extension: bool)
    ensures
        extension == mode.is_extension(),
{
    match mode {
        AddressingMode::RegisterIndexed(_, _) | AddressingMode::Absolute(_) => true,
        AddressingMode::RegisterIndirectAutoincrement(register) => *register == 0,
        _ => false,
    }
}

/// Resolving an operand depends on the state only through the program
/// counter and the two words behind it: two states that agree on these
/// resolve every operand field alike.
pub proof fn lemma_resolution_reads_only_extension_words(
    first: CpuState,
    second: CpuState,
    register: u16,
    mode_bits: u16,
)
    requires
        first.pc() == second.pc(),
        source_extension(first) == source_extension(second),
        destination_extension(first) == destination_extension(second),
    ensures
        resolve_source(first, register, mode_bits) == resolve_source(second, register, mode_bits),
        resolve_destination(first, register, mode_bits) == resolve_destination(
            second,
            register,
            mode_bits,
        ),
{
}

/// Mode 3 on the program counter is an immediate operand, never the
/// autoincrement mode, whatever the registers hold; the operand is the word
/// at the program counter.
pub proof fn lemma_autoincrement_on_pc_is_immediate(state: CpuState)
    ensures
        resolve_source(state, 0, 3) == AddressingMode::Immediate(
            word_at(state.memory, state.pc()),
        ),
{
}

/// The indexed mode on register 2 in the destination position is absolute
/// addressing, and its address is the word two bytes after the program
/// counter, not the word at the program counter.
pub proof fn lemma_absolute_destination_reads_second_word(state: CpuState)
    ensures
        resolve_destination(state, 2, 1) == AddressingMode::Absolute(
            word_at(state.memory, state.pc().wrapping_add(2)),
        ),
{
}

/// Reading and writing use the same place: an operand in a register or in
/// memory reads as the value last stored in it.
pub proof fn lemma_stored_operand_is_read_back(state: CpuState, mode: AddressingMode, value: u16)
    requires
        state.well_formed(),
        mode.well_formed(),
        mode is RegisterDirect || mode is RegisterIndexed || mode is RegisterIndirect
            || mode is RegisterIndirectAutoincrement || mode is Absolute,
    ensures
        operand_value(operand_stored(state, mode, value), mode) == value,
{
    match mode {
        AddressingMode::RegisterDirect(_) => {},
        AddressingMode::RegisterIndexed(register, displacement) => {
            lemma_store_then_read_word(
                state.memory,
                indexed_address(state.registers[register as int], displacement),
                value,
            );
        },
        AddressingMode::RegisterIndirect(register) => {
            lemma_store_then_read_word(state.memory, state.registers[register as int], value);
        },
        AddressingMode::RegisterIndirectAutoincrement(register) => {
            lemma_store_then_read_word(state.memory, state.registers[register as int], value);
        },
        AddressingMode::Absolute(address) => {
            lemma_store_then_read_word(state.memory, address, value);
        },
        _ => {},
    }
}

/// Every opcode mnemonic. Each has a fixed numeric code; the codes of a
/// family lie in one range: `0x00..=0x0F` for the single-operand
/// instructions, `0x10..=0x17` for the jumps and `0x20..=0x3F` for the
/// double-operand instructions.
#[derive(Clone, Copy, Debug, PartialEq, Eq, Structural)]
pub enum InstructionType {
    RRC,
    SWPB,
    RRA,
    SXT,
    PUSH,
    CALL,
    RETI,
    JNZ,
    JZ,
    JNC,
    JC,
    JN,
    JGE,
    JL,
    JMP,
    MOV,
    ADD,
    ADDC,
    SUBC,
    SUB,
    CMP,
    DADD,
    BIT,
    BIC,
    BIS,
    XOR,
    AND,
    /// Stands for an opcode that is no known instruction.
    Unknown,
}

impl InstructionType {
    /// The numeric code of the mnemonic.
    pub open spec fn code(self) -> u16 {
        match self {
            InstructionType::RRC => 0x00,
            InstructionType::SWPB => 0x01,
            InstructionType::RRA => 0x02,
            InstructionType::SXT => 0x03,
            InstructionType::PUSH => 0x04,
            InstructionType::CALL => 0x05,
            InstructionType::RETI => 0x06,
            InstructionType::JNZ => 0x10,
            InstructionType::JZ => 0x11,
            InstructionType::JNC => 0x12,
            InstructionType::JC => 0x13,
            InstructionType::JN => 0x14,
            InstructionType::JGE => 0x15,
            InstructionType::JL => 0x16,
            InstructionType::JMP => 0x17,
            InstructionType::MOV => 0x20,
            InstructionType::ADD => 0x21,
            InstructionType::ADDC => 0x22,
            InstructionType::SUBC => 0x23,
            InstructionType::SUB => 0x24,
            InstructionType::CMP => 0x25,
            InstructionType::DADD => 0x26,
            InstructionType::BIT => 0x27,
            InstructionType::BIC => 0x28,
            InstructionType::BIS => 0x29,
            InstructionType::XOR => 0x2A,
            InstructionType::AND => 0x2B,
            InstructionType::Unknown => 0x30,
        }
    }

    /// The mnemonic with the numeric code `code`, if there is one.
    pub open spec fn of_code(code: u16) -> Option<InstructionType> {
        match code {
            0x00 => Some(InstructionType::RRC),
            0x01 => Some(InstructionType::SWPB),
            0x02 => Some(InstructionType::RRA),
            0x03 => Some(InstructionType::SXT),
            0x04 => Some(InstructionType::PUSH),
            0x05 => Some(InstructionType::CALL),
            0x06 => Some(InstructionType::RETI),
            0x10 => Some(InstructionType::JNZ),
            0x11 => Some(InstructionType::JZ),
            0x12 => Some(InstructionType::JNC),
            0x13 => Some(InstructionType::JC),
            0x14 => Some(InstructionType::JN),
            0x15 => Some(InstructionType::JGE),
            0x16 => Some(InstructionType::JL),
            0x17 => Some(InstructionType::JMP),
            0x20 => Some(InstructionType::MOV),
            0x21 => Some(InstructionType::ADD),
            0x22 => Some(InstructionType::ADDC),
            0x23 => Some(InstructionType::SUBC),
            0x24 => Some(InstructionType::SUB),
            0x25 => Some(InstructionType::CMP),
            0x26 => Some(InstructionType::DADD),
            0x27 => Some(InstructionType::BIT),
            0x28 => Some(InstructionType::BIC),
            0x29 => Some(InstructionType::BIS),
            0x2A => Some(InstructionType::XOR),
            0x2B => Some(InstructionType::AND),
            0x30 => Some(InstructionType::Unknown),
            _ => None,
        }
    }

    /// The mnemonic with the numeric code `code`, or `None` where no
    /// mnemonic has that code.
    pub fn from_u16(code: u16) -> (mnemonic: Option<InstructionType>)
        ensures
            mnemonic == InstructionType::of_code(code),
    {
        match code {
            0x00 => Some(InstructionType::RRC),
            0x01 => Some(InstructionType::SWPB),
            0x02 => Some(InstructionType::RRA),
            0x03 => Some(InstructionType::SXT),
            0x04 => Some(InstructionType::PUSH),
            0x05 => Some(InstructionType::CALL),
            0x06 => Some(InstructionType::RETI),
            0x10 => Some(InstructionType::JNZ),
            0x11 => Some(InstructionType::JZ),
            0x12 => Some(InstructionType::JNC),
            0x13 => Some(InstructionType::JC),
            0x14 => Some(InstructionType::JN),
            0x15 => Some(InstructionType::JGE),
            0x16 => Some(InstructionType::JL),
            0x17 => Some(InstructionType::JMP),
            0x20 => Some(InstructionType::MOV),
            0x21 => Some(InstructionType::ADD),
            0x22 => Some(InstructionType::ADDC),
            0x23 => Some(InstructionType::SUBC),
            0x24 => Some(InstructionType::SUB),
            0x25 => Some(InstructionType::CMP),
            0x26 => Some(InstructionType::DADD),
            0x27 => Some(InstructionType::BIT),
            0x28 => Some(InstructionType::BIC),
            0x29 => Some(InstructionType::BIS),
            0x2A => Some(InstructionType::XOR),
            0x2B => Some(InstructionType::AND),
            0x30 => Some(InstructionType::Unknown),
            _ => None,
        }
    }

    /// The numeric code of the mnemonic.
    pub fn to_u16(&self) -> (code: u16)
        ensures
            code == self.code(),
    {
        match self {
            InstructionType::RRC => 0x00,
            InstructionType::SWPB => 0x01,
            InstructionType::RRA => 0x02,
            InstructionType::SXT => 0x03,
            InstructionType::PUSH => 0x04,
            InstructionType::CALL => 0x05,
            InstructionType::RETI => 0x06,
            InstructionType::JNZ => 0x10,
            InstructionType::JZ => 0x11,
            InstructionType::JNC => 0x12,
            InstructionType::JC => 0x13,
            InstructionType::JN => 0x14,
            InstructionType::JGE => 0x15,
            InstructionType::JL => 0x16,
            InstructionType::JMP => 0x17,
            InstructionType::MOV => 0x20,
            InstructionType::ADD => 0x21,
            InstructionType::ADDC => 0x22,
            InstructionType::SUBC => 0x23,
            InstructionType::SUB => 0x24,
            InstructionType::CMP => 0x25,
            InstructionType::DADD => 0x26,
            InstructionType::BIT => 0x27,
            InstructionType::BIC => 0x28,
            InstructionType::BIS => 0x29,
            InstructionType::XOR => 0x2A,
            InstructionType::AND => 0x2B,
            InstructionType::Unknown => 0x30,
        }
    }
}

/// A mnemonic is found again from its numeric code.
pub proof fn lemma_code_names_its_mnemonic(mnemonic: InstructionType)
    ensures
        InstructionType::of_code(mnemonic.code()) == Some(mnemonic),
{
}

/// The mnemonic found from a numeric code has that code.
pub proof fn lemma_mnemonic_has_its_code(code: u16)
    ensures
        InstructionType::of_code(code) matches Some(mnemonic) ==> mnemonic.code() == code,
{
}

/// What every decoded instruction offers, whatever its family.
pub trait ExecutableInstruction {
    /// The number of extension words that follow the opcode word.
    spec fn extensions(&self) -> u16;

    /// The mnemonic of the instruction.
    spec fn instruction_type(&self) -> InstructionType;

    /// The opcode word the instruction was decoded from, with its address.
    spec fn instruction_raw(&self) -> Instruction;

    /// The state that executing the instruction in `state` leads to.
    spec fn executed(&self, state: CpuState) -> CpuState;

    /// The result that executing the instruction in `state` reports.
    spec fn outcome(&self, state: CpuState) -> ExecutionResult;

    /// The number of extension words that follow the opcode word: at most
    /// one for the source and one for the destination.
    fn get_extensions_amount(&self) -> (amount: u16)
        ensures
            amount == self.extensions(),
            amount <= 2,
    ;

    /// Executes the instruction on `cpu`. The program counter has been moved
    /// past the opcode word and the extension words before.
    fn execute(&self, cpu: &mut CPU) -> (result: ExecutionResult)
        ensures
            final(cpu)@ == self.executed(old(cpu)@),
            result == self.outcome(old(cpu)@),
    ;

    /// The mnemonic of the instruction.
    fn get_instruction_type(&self) -> (mnemonic: InstructionType)
        ensures
            mnemonic == self.instruction_type(),
    ;

    /// The opcode word the instruction was decoded from, with its address.
    fn get_instruction_raw(&self) -> (raw: Instruction)
        ensures
            raw == self.instruction_raw(),
    ;
}

} // verus!
