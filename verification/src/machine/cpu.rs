//! The register file, the status flags and the processor that owns the memory.
//!
//! Registers 0 to 3 have architectural roles: the program counter, the stack
//! pointer, the status register and the second constant generator. The status
//! register doubles as a word of flag bits, which are read and written through
//! the flag accessors of [`CPU`].

use crate::instruction::disassembler::{
    decoded, family_of, parse_instruction, InstructionFamily, ParseState,
};
use crate::instruction::instruction::{ExecutableInstruction, Instruction};
use crate::instruction::jump_instruction::{condition_of, displacement_of};
use crate::machine::memory::{word_at, Memory, MEMORY_SIZE};
use vstd::prelude::*;

verus! {

/// Number of registers in the register file.
pub const REGISTER_COUNT: usize = 16;

/// How a cycle, a run or the execution of one instruction ended.
#[derive(Clone, Copy, Debug, PartialEq, Eq, Structural)]
pub enum ExecutionResult {
    /// The instruction was executed, or every cycle asked for was run.
    Done,
    /// The CPU-off flag was set at the start of a cycle: nothing was fetched.
    CpuOff,
    /// The carried opcode word is no instruction that can be executed.
    ParseError(Instruction),
    /// An instruction met a state it cannot execute in.
    ExecutionError,
}

/// The names of the sixteen registers, in index order.
#[derive(Clone, Copy, Debug, PartialEq, Eq, Structural)]
pub enum CPURegister {
    /// The program counter (R0) points to the next instruction to be executed.
    PC,
    /// The stack pointer (R1) holds the return addresses of subroutine calls
    /// and interrupts.
    SP,
    /// The status register (R2) holds the flags; as an operand it is also the
    /// first constant generator.
    SR,
    /// The second constant generator (R3).
    CG,
    R4,
    R5,
    R6,
    R7,
    R8,
    R9,
    R10,
    R11,
    R12,
    R13,
    R14,
    R15,
}

impl CPURegister {
    /// The position of the register in the register file.
    pub open spec fn spec_index(self) -> usize {
        match self {
            CPURegister::PC => 0,
            CPURegister::SP => 1,
            CPURegister::SR => 2,
            CPURegister::CG => 3,
            CPURegister::R4 => 4,
            CPURegister::R5 => 5,
            CPURegister::R6 => 6,
            CPURegister::R7 => 7,
            CPURegister::R8 => 8,
            CPURegister::R9 => 9,
            CPURegister::R10 => 10,
            CPURegister::R11 => 11,
            CPURegister::R12 => 12,
            CPURegister::R13 => 13,
            CPURegister::R14 => 14,
            CPURegister::R15 => 15,
        }
    }

    /// The position of the register in the register file.
    #[verifier::when_used_as_spec(spec_index)]
    pub fn index(self) -> (index: usize)
        ensures
            index == self.spec_index(),
            index < REGISTER_COUNT,
    {
        match self {
            CPURegister::PC => 0,
            CPURegister::SP => 1,
            CPURegister::SR => 2,
            CPURegister::CG => 3,
            CPURegister::R4 => 4,
            CPURegister::R5 => 5,
            CPURegister::R6 => 6,
            CPURegister::R7 => 7,
            CPURegister::R8 => 8,
            CPURegister::R9 => 9,
            CPURegister::R10 => 10,
            CPURegister::R11 => 11,
            CPURegister::R12 => 12,
            CPURegister::R13 => 13,
            CPURegister::R14 => 14,
            CPURegister::R15 => 15,
        }
    }
}

/// The named bits of the status register.
#[derive(Clone, Copy, Debug, PartialEq, Eq, Structural)]
pub enum StatusFlag {
    /// Carry bit. Set when the result of an operation produced a carry.
    CarryFlag,
    /// Zero bit. Set when the result of an operation is 0.
    ZeroFlag,
    /// Negative bit. Set when the result of an operation is negative.
    NegativeFlag,
    /// General interrupt enable. When set, maskable interrupts are enabled.
    GeneralInterruptEnabledFlag,
    /// CPU off. When set, the processor stops fetching instructions.
    CpuOffFlag,
    /// Oscillator off. When set, the crystal oscillator is turned off.
    OscillatorOffFlag,
    /// System clock generator 0. When set, the DCO generator is turned off.
    SystemClockGenerator0Off,
    /// System clock generator 1. When set, the sub-main clock is turned off.
    SystemClockGenerator1Off,
    /// Overflow bit. Set when the result of an arithmetic operation overflows
    /// the signed range.
    OverflowFlag,
}

impl StatusFlag {
    /// The status-register bit of the flag, as a mask with that one bit set.
    pub open spec fn spec_mask(self) -> u16 {
        match self {
            StatusFlag::CarryFlag => 0x0001,
            StatusFlag::ZeroFlag => 0x0002,
            StatusFlag::NegativeFlag => 0x0004,
            StatusFlag::GeneralInterruptEnabledFlag => 0x0008,
            StatusFlag::CpuOffFlag => 0x0010,
            StatusFlag::OscillatorOffFlag => 0x0020,
            StatusFlag::SystemClockGenerator0Off => 0x0040,
            StatusFlag::SystemClockGenerator1Off => 0x0080,
            StatusFlag::OverflowFlag => 0x0100,
        }
    }

    /// The status-register bit of the flag, as a mask with that one bit set.
    #[verifier::when_used_as_spec(spec_mask)]
    pub fn mask(self) -> (mask: u16)
        ensures
            mask == self.spec_mask(),
    {
        match self {
            StatusFlag::CarryFlag => 0x0001,
            StatusFlag::ZeroFlag => 0x0002,
            StatusFlag::NegativeFlag => 0x0004,
            StatusFlag::GeneralInterruptEnabledFlag => 0x0008,
            StatusFlag::CpuOffFlag => 0x0010,
            StatusFlag::OscillatorOffFlag => 0x0020,
            StatusFlag::SystemClockGenerator0Off => 0x0040,
            StatusFlag::SystemClockGenerator1Off => 0x0080,
            StatusFlag::OverflowFlag => 0x0100,
        }
    }
}

/// Whether any bit of `mask` is set in the status word `sr`.
pub open spec fn flag_is_set(sr: u16, mask: u16) -> bool {
    (sr & mask) != 0
}

/// The status word `sr` with the bits of `mask` all set or all cleared.
pub open spec fn with_flag(sr: u16, mask: u16, value: bool) -> u16 {
    if value {
        sr | mask
    } else {
        sr & !mask
    }
}

/// The status word `sr` after toggling the bits of `mask`: the bits are
/// flipped and the result is cut down to its low byte.
pub open spec fn toggled(sr: u16, mask: u16) -> u16 {
    (sr ^ mask) & 0xff
}

/// The mathematical state of a processor: the registers by index and the
/// memory bytes by address.
pub struct CpuState {
    pub registers: Seq<u16>,
    pub memory: Seq<u8>,
}

impl CpuState {
    /// There are sixteen registers and 64 KiB of memory.
    pub open spec fn well_formed(self) -> bool {
        &&& self.registers.len() == REGISTER_COUNT
        &&& self.memory.len() == MEMORY_SIZE
    }

    /// The program counter, register 0.
    pub open spec fn pc(self) -> u16 {
        self.registers[0]
    }

    /// The stack pointer, register 1.
    pub open spec fn sp(self) -> u16 {
        self.registers[1]
    }

    /// The status register, register 2.
    pub open spec fn sr(self) -> u16 {
        self.registers[2]
    }

    /// This state with `value` in register `register` and all else unchanged.
    pub open spec fn with_register(self, register: int, value: u16) -> CpuState {
        CpuState { registers: self.registers.update(register, value), memory: self.memory }
    }

    /// This state with the memory replaced by `memory` and the registers unchanged.
    pub open spec fn with_memory(self, memory: Seq<u8>) -> CpuState {
        CpuState { registers: self.registers, memory }
    }
}

/// The instruction that a cycle starting in `state` fetches: the word at the
/// program counter, with the program counter as its address.
pub open spec fn fetched(state: CpuState) -> Instruction {
    Instruction { address: state.pc(), value: word_at(state.memory, state.pc()) }
}

/// The program counter moved from `pc` past the opcode word and `extensions`
/// extension words, wrapping at the end of memory.
pub open spec fn past_instruction(pc: u16, extensions: u16) -> u16 {
    ((pc + 2 + 2 * extensions) % 0x1_0000) as u16
}

/// The state and the result after one cycle that starts in `state`.
///
/// With the CPU-off flag set the cycle ends at once with `CpuOff`. An
/// instruction that cannot be decoded ends it with `ParseError`. In both
/// cases the state is unchanged. Otherwise the program counter is moved past
/// the instruction, the instruction is executed in that state, and the cycle
/// ends with what the execution reports.
pub open spec fn cycle(state: CpuState) -> (CpuState, ExecutionResult) {
    if flag_is_set(state.sr(), StatusFlag::CpuOffFlag.mask()) {
        (state, ExecutionResult::CpuOff)
    } else {
        match decoded(fetched(state)) {
            ParseState::Done(executable) => {
                let ready = state.with_register(
                    0,
                    past_instruction(state.pc(), executable.extensions()),
                );
                (executable.executed(ready), executable.outcome(ready))
            },
            ParseState::Error(raw) => (state, ExecutionResult::ParseError(raw)),
        }
    }
}

/// The state and the result after up to `limit` cycles that start in
/// `state`: the cycles go on while each ends with `Done`. The result is that
/// of the first cycle that ended otherwise, or `Done` after `limit` cycles.
pub open spec fn cycles(state: CpuState, limit: nat) -> (CpuState, ExecutionResult)
    decreases limit,
{
    if limit == 0 {
        (state, ExecutionResult::Done)
    } else {
        let (next, result) = cycle(state);
        if result == ExecutionResult::Done {
            cycles(next, (limit - 1) as nat)
        } else {
            (next, result)
        }
    }
}

/// The processor: sixteen 16-bit registers and the memory they address.
pub struct CPU {
    memory: Memory,
    registers: [u16; 16],
}

impl View for CPU {
    type V = CpuState;

    /// The registers as a sequence of sixteen words and the memory as a
    /// sequence of `MEMORY_SIZE` bytes.
    open spec fn view(&self) -> CpuState {
        CpuState {
            registers: Seq::new(REGISTER_COUNT as nat, |r: int| self.register(r)),
            memory: self.bytes(),
        }
    }
}

impl CPU {
    /// The value held by register `register`.
    pub closed spec fn register(&self, register: int) -> u16 {
        self.registers@[register]
    }

    /// The bytes of the memory, by address.
    pub closed spec fn bytes(&self) -> Seq<u8> {
        self.memory@
    }

    /// The view of a processor always has sixteen registers and 64 KiB of memory.
    pub proof fn lemma_view_well_formed(&self)
        ensures
            self@.well_formed(),
    {
    }

    /// A processor over the image `memory`, with every register zero. The
    /// program counter is zero too: set it before running.
    pub fn new(memory: Memory) -> (cpu: CPU)
        ensures
            cpu@.registers == Seq::new(REGISTER_COUNT as nat, |r: int| 0u16),
            cpu@.memory == memory@,
    {
        CPU { memory, registers: [0u16; 16] }
    }

    /// Runs one cycle: fetches the instruction at the program counter,
    /// decodes it, moves the program counter past it and executes it.
    ///
    /// Nothing is fetched when the CPU-off flag is set, and nothing is
    /// changed when the instruction cannot be decoded.
    pub fn step(&mut self) -> (result: ExecutionResult)
        ensures
            (final(self)@, result) == cycle(old(self)@),
    {
        if self.is_flag_set(StatusFlag::CpuOffFlag.mask()) {
            return ExecutionResult::CpuOff;
        }
        let pc = self.get_pc();
        let instruction = Instruction::new(pc, self.memory.get_word_be(pc));
        let parse_state = parse_instruction(self, instruction);
        let executable = match parse_state {
            ParseState::Done(insn) => insn,
            ParseState::Error(raw) => return ExecutionResult::ParseError(raw),
        };
        let skipped = executable.get_extensions_amount().wrapping_mul(2);
        self.set_pc(pc.wrapping_add(2).wrapping_add(skipped));
        executable.execute(self)
    }

    /// Runs cycles until one does not end with `Done`, but `max_cycles` at
    /// most, and returns how the last one ended.
    ///
    /// The result is `CpuOff` when the processor has halted and `ParseError`
    /// with the raw instruction when one could not be decoded or executed.
    /// It is `Done` when `max_cycles` instructions were executed; the
    /// processor can then be run further.
    pub fn run(&mut self, max_cycles: u64) -> (result: ExecutionResult)
        ensures
            (final(self)@, result) == cycles(old(self)@, max_cycles as nat),
    {
        let mut remaining = max_cycles;
        while remaining > 0
            invariant
                cycles(old(self)@, max_cycles as nat) == cycles(self@, remaining as nat),
            decreases remaining,
        {
            let result = self.step();
            match result {
                ExecutionResult::Done => {},
                _ => {
                    return result;
                },
            }
            remaining = remaining - 1;
        }
        ExecutionResult::Done
    }

    /// Whether any bit of the mask `flag` is set in the status register.
    pub fn is_flag_set(&self, flag: u16) -> (set: bool)
        ensures
            set == flag_is_set(self@.sr(), flag),
    {
        (self.get_register(CPURegister::SR.index()) & flag) != 0
    }

    /// Sets (`value` true) or clears (`value` false) every bit of the mask
    /// `flag` in the status register.
    pub fn set_flag(&mut self, flag: u16, value: bool)
        ensures
            final(self)@ == old(self)@.with_register(2, with_flag(old(self)@.sr(), flag, value)),
    {
        let sr = self.get_sr();
        self.set_sr(
            if value {
                sr | flag
            } else {
                sr & !flag
            },
        );
    }

    /// Flips every bit of the mask `flag` in the status register, then keeps
    /// only the low byte of the register: bits 8 to 15 end up clear.
    pub fn toggle_flag(&mut self, flag: u16)
        ensures
            final(self)@ == old(self)@.with_register(2, toggled(old(self)@.sr(), flag)),
    {
        let sr = self.get_sr();
        self.set_register(CPURegister::SR.index(), (sr ^ flag) & 0xff);
    }

    /// The program counter.
    pub fn get_pc(&self) -> (value: u16)
        ensures
            value == self@.pc(),
    {
        self.get_register(CPURegister::PC.index())
    }

    /// Sets the program counter.
    pub fn set_pc(&mut self, value: u16)
        ensures
            final(self)@ == old(self)@.with_register(0, value),
    {
        self.set_register(CPURegister::PC.index(), value);
    }

    /// The stack pointer.
    pub fn get_sp(&self) -> (value: u16)
        ensures
            value == self@.sp(),
    {
        self.get_register(CPURegister::SP.index())
    }

    /// Sets the stack pointer.
    pub fn set_sp(&mut self, value: u16)
        ensures
            final(self)@ == old(self)@.with_register(1, value),
    {
        self.set_register(CPURegister::SP.index(), value);
    }

    /// The status register.
    pub fn get_sr(&self) -> (value: u16)
        ensures
            value == self@.sr(),
    {
        self.get_register(CPURegister::SR.index())
    }

    /// Sets the status register.
    pub fn set_sr(&mut self, value: u16)
        ensures
            final(self)@ == old(self)@.with_register(2, value),
    {
        self.set_register(CPURegister::SR.index(), value);
    }

    /// The value of register `register`, which must name one of the sixteen
    /// registers.
    pub fn get_register(&self, register: usize) -> (value: u16)
        requires
            register < REGISTER_COUNT,
        ensures
            value == self@.registers[register as int],
    {
        self.registers[register]
    }

    /// Stores `value` in register `register`, which must name one of the
    /// sixteen registers. The other registers and the memory are unchanged.
    pub fn set_register(&mut self, register: usize, value: u16)
        requires
            register < REGISTER_COUNT,
        ensures
            final(self)@ == old(self)@.with_register(register as int, value),
    {
        self.registers[register] = value;
        assert(self@.registers =~= old(self)@.registers.update(register as int, value));
    }

    /// The memory, for reading.
    pub fn get_memory(&self) -> (memory: &Memory)
        ensures
            memory@ == self@.memory,
    {
        &self.memory
    }

    /// The memory, for writing. The registers are unchanged whatever is
    /// written through the returned reference.
    pub fn get_memory_mut(&mut self) -> (memory: &mut Memory)
        ensures
            memory@ == old(self)@.memory,
            final(self)@.memory == final(memory)@,
            final(self)@.registers == old(self)@.registers,
    {
        &mut self.memory
    }
}

/// A register holds the value last stored in it.
pub proof fn lemma_register_holds_stored_value(state: CpuState, register: int, value: u16)
    requires
        state.well_formed(),
        0 <= register < REGISTER_COUNT,
    ensures
        state.with_register(register, value).registers[register] == value,
        state.with_register(register, value).well_formed(),
{
}

/// A flag that was set is found set, unless the mask is empty, and a flag
/// that was cleared is found clear.
pub proof fn lemma_flag_is_found_as_set(sr: u16, mask: u16)
    ensures
        flag_is_set(with_flag(sr, mask, true), mask) <==> mask != 0,
        !flag_is_set(with_flag(sr, mask, false), mask),
{
    assert(((sr | mask) & mask) == mask) by (bit_vector);
    assert(((sr & !mask) & mask) == 0) by (bit_vector);
}

/// A cycle on a jump ends with `Done` and changes the program counter only.
/// The program counter ends behind the opcode word, moved on by twice the
/// displacement where the condition of the jump holds.
pub proof fn lemma_cycle_of_jump(state: CpuState)
    requires
        state.well_formed(),
        !flag_is_set(state.sr(), StatusFlag::CpuOffFlag.mask()),
        family_of(fetched(state).value) == InstructionFamily::Jump,
    ensures
        cycle(state).1 == ExecutionResult::Done,
        cycle(state).0 == state.with_register(
            0,
            if condition_of(fetched(state).value).holds(state.sr()) {
                ((state.pc() + 2 + 2 * displacement_of(fetched(state).value)) % 0x1_0000) as u16
            } else {
                ((state.pc() + 2) % 0x1_0000) as u16
            },
        ),
{
    let value = fetched(state).value;
    assert((value >> 10) & 0b111 < 8) by (bit_vector);
    let target = if condition_of(value).holds(state.sr()) {
        ((state.pc() + 2 + 2 * displacement_of(value)) % 0x1_0000) as u16
    } else {
        ((state.pc() + 2) % 0x1_0000) as u16
    };
    assert(cycle(state).0.registers =~= state.with_register(0, target).registers);
}

/// A cycle on an opcode of a family without an execution unit ends with a
/// parse error that carries the fetched instruction, and changes nothing.
pub proof fn lemma_cycle_of_undecodable(state: CpuState)
    requires
        !flag_is_set(state.sr(), StatusFlag::CpuOffFlag.mask()),
        family_of(fetched(state).value) != InstructionFamily::Jump,
    ensures
        cycle(state) == (state, ExecutionResult::ParseError(fetched(state))),
{
}

/// A halted processor stays halted: with the CPU-off flag set, a cycle and
/// any number of cycles end with `CpuOff` and change nothing.
pub proof fn lemma_halted_stays_halted(state: CpuState, limit: nat)
    requires
        flag_is_set(state.sr(), StatusFlag::CpuOffFlag.mask()),
        limit > 0,
    ensures
        cycle(state) == (state, ExecutionResult::CpuOff),
        cycles(state, limit) == (state, ExecutionResult::CpuOff),
{
}

/// Toggling the same mask twice restores the low byte of the status word.
/// Since every toggle clears bits 8 to 15, the result is the low byte of the
/// status word it started from.
pub proof fn lemma_toggle_twice_restores_low_byte(sr: u16, mask: u16)
    ensures
        toggled(toggled(sr, mask), mask) & 0xff == sr & 0xff,
        toggled(toggled(sr, mask), mask) == sr & 0xff,
{
    assert(((((sr ^ mask) & 0xff) ^ mask) & 0xff) == sr & 0xff) by (bit_vector);
    assert((sr & 0xff) & 0xff == sr & 0xff) by (bit_vector);
}

/// Toggling leaves bits 8 to 15 of a status word as they were where they
/// were clear, and toggling twice then restores the whole word.
pub proof fn lemma_toggle_keeps_clear_high_bits(sr: u16, mask: u16)
    requires
        sr & 0xff00 == 0,
    ensures
        toggled(sr, mask) & 0xff00 == sr & 0xff00,
        toggled(toggled(sr, mask), mask) == sr,
{
    assert(((sr ^ mask) & 0xff) & 0xff00 == 0) by (bit_vector);
    assert(sr & 0xff00 == 0 ==> ((((sr ^ mask) & 0xff) ^ mask) & 0xff) == sr) by (bit_vector);
}

} // verus!
