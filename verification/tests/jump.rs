use msp430_sim::instruction::disassembler::{Executable, ParseState};
use msp430_sim::instruction::instruction::{ExecutableInstruction, Instruction, InstructionType};
use msp430_sim::instruction::jump_instruction::{
    get_jump_from_instruction, JumpInstruction, JumpType,
};
use msp430_sim::machine::cpu::{ExecutionResult, StatusFlag, CPU};
use msp430_sim::machine::memory::Memory;

fn decode(value: u16) -> JumpInstruction {
    match JumpInstruction::new(Instruction::new(0x1000, value)) {
        ParseState::Done(Executable::Jump(jump)) => jump,
        ParseState::Error(_) => panic!("a jump opcode always decodes"),
    }
}

fn pc_after(jump_type: JumpType, offset: i16, sr: u16, pc: u16) -> u16 {
    let jump = JumpInstruction { instruction: Instruction::new(0, 0), jump_type, offset };
    let mut cpu = CPU::new(Memory::new());
    cpu.set_pc(pc);
    cpu.set_sr(sr);
    assert_eq!(jump.execute(&mut cpu), ExecutionResult::Done);
    assert_eq!(cpu.get_sr(), sr);
    cpu.get_pc()
}

#[test]
fn displacement_is_sign_extended_from_ten_bits() {
    assert_eq!(decode(0x3C00 | 0x3FF).offset, -1);
    assert_eq!(decode(0x3C00 | 0x1FF).offset, 511);
    assert_eq!(decode(0x3C00 | 0x200).offset, -512);
    assert_eq!(decode(0x3C00).offset, 0);
    assert_eq!(decode(0x3C00 | 0x001).offset, 1);
    assert_eq!(decode(0x3C00 | 0x3FE).offset, -2);
}

#[test]
fn displacement_ignores_the_bits_above_the_field() {
    assert_eq!(decode(0x23FF).offset, -1);
    assert_eq!(decode(0xFFFF).offset, -1);
    assert_eq!(decode(0xFDFF).offset, 511);
    assert_eq!(decode(0x0400).offset, 0);
}

#[test]
fn condition_comes_from_bits_ten_to_twelve() {
    assert_eq!(get_jump_from_instruction(0x2000), JumpType::JNZ);
    assert_eq!(get_jump_from_instruction(0x2400), JumpType::JZ);
    assert_eq!(get_jump_from_instruction(0x2800), JumpType::JNC);
    assert_eq!(get_jump_from_instruction(0x2C00), JumpType::JC);
    assert_eq!(get_jump_from_instruction(0x3000), JumpType::JN);
    assert_eq!(get_jump_from_instruction(0x3400), JumpType::JGE);
    assert_eq!(get_jump_from_instruction(0x3800), JumpType::JL);
    assert_eq!(get_jump_from_instruction(0x3C00), JumpType::JMP);
    assert_eq!(get_jump_from_instruction(0x3FFF), JumpType::JMP);
    assert_eq!(get_jump_from_instruction(0x23FF), JumpType::JNZ);
    assert_eq!(get_jump_from_instruction(0xE400), JumpType::JZ);
}

#[test]
fn condition_is_never_unknown() {
    for field in 0..8u16 {
        assert_ne!(get_jump_from_instruction(field << 10), JumpType::Unknown);
        assert_eq!(Some(get_jump_from_instruction(field << 10)), JumpType::from_u16(field));
    }
}

#[test]
fn jump_type_codes() {
    let conditions: [JumpType; 9] = [
        JumpType::JNZ,
        JumpType::JZ,
        JumpType::JNC,
        JumpType::JC,
        JumpType::JN,
        JumpType::JGE,
        JumpType::JL,
        JumpType::JMP,
        JumpType::Unknown,
    ];
    for code in 0..9u16 {
        assert_eq!(JumpType::from_u16(code), Some(conditions[code as usize]));
        assert_eq!(conditions[code as usize].to_u16(), code);
    }
    assert_eq!(JumpType::from_u16(9), None);
    assert_eq!(JumpType::from_u16(0xFFFF), None);
}

#[test]
fn new_decodes_condition_displacement_and_keeps_the_instruction() {
    let instruction = Instruction::new(0x4400, 0x2404);
    let state = JumpInstruction::new(instruction);
    let expected = JumpInstruction { instruction, jump_type: JumpType::JZ, offset: 4 };
    assert_eq!(state, ParseState::Done(Executable::Jump(expected)));
    assert_eq!(expected.get_jump_type(), JumpType::JZ);
    assert_eq!(expected.get_instruction(), instruction);
    assert_eq!(expected.get_instruction_raw(), instruction);
    assert_eq!(expected.get_extensions_amount(), 0);
}

#[test]
fn new_decodes_every_opcode_word() {
    let words: [u16; 6] = [0x0000, 0x2000, 0x3FFF, 0x8000, 0xFFFF, 0x1C00];
    for word in words {
        let state = JumpInstruction::new(Instruction::new(0x0100, word));
        assert!(matches!(state, ParseState::Done(Executable::Jump(_))));
    }
}

#[test]
fn jump_mnemonics() {
    let instruction = Instruction::new(0, 0);
    let pairs: [(JumpType, InstructionType); 9] = [
        (JumpType::JNZ, InstructionType::JNZ),
        (JumpType::JZ, InstructionType::JZ),
        (JumpType::JNC, InstructionType::JNC),
        (JumpType::JC, InstructionType::JC),
        (JumpType::JN, InstructionType::JN),
        (JumpType::JGE, InstructionType::JGE),
        (JumpType::JL, InstructionType::JL),
        (JumpType::JMP, InstructionType::JMP),
        (JumpType::Unknown, InstructionType::Unknown),
    ];
    for (jump_type, mnemonic) in pairs {
        let jump = JumpInstruction { instruction, jump_type, offset: 0 };
        assert_eq!(jump.get_instruction_type(), mnemonic);
        assert_eq!(Executable::Jump(jump).get_instruction_type(), mnemonic);
    }
}

#[test]
fn jnz_and_jz_follow_the_zero_flag() {
    let zero: u16 = StatusFlag::ZeroFlag.mask();
    assert_eq!(pc_after(JumpType::JNZ, 4, 0, 0x1002), 0x100A);
    assert_eq!(pc_after(JumpType::JNZ, 4, zero, 0x1002), 0x1002);
    assert_eq!(pc_after(JumpType::JZ, 4, zero, 0x1002), 0x100A);
    assert_eq!(pc_after(JumpType::JZ, 4, 0, 0x1002), 0x1002);
    assert_eq!(pc_after(JumpType::JZ, 4, 0xFFFF & !zero, 0x1002), 0x1002);
}

#[test]
fn jnc_and_jc_follow_the_carry_flag() {
    let carry: u16 = StatusFlag::CarryFlag.mask();
    assert_eq!(pc_after(JumpType::JNC, 3, 0, 0x2000), 0x2006);
    assert_eq!(pc_after(JumpType::JNC, 3, carry, 0x2000), 0x2000);
    assert_eq!(pc_after(JumpType::JC, 3, carry, 0x2000), 0x2006);
    assert_eq!(pc_after(JumpType::JC, 3, 0, 0x2000), 0x2000);
}

#[test]
fn jn_is_taken_when_the_negative_flag_is_clear() {
    let negative: u16 = StatusFlag::NegativeFlag.mask();
    assert_eq!(pc_after(JumpType::JN, 2, 0, 0x2000), 0x2004);
    assert_eq!(pc_after(JumpType::JN, 2, negative, 0x2000), 0x2000);
    assert_eq!(pc_after(JumpType::JN, 2, 0xFFFF & !negative, 0x2000), 0x2004);
}

#[test]
fn jge_and_jl_compare_negative_and_overflow() {
    let negative: u16 = StatusFlag::NegativeFlag.mask();
    let overflow: u16 = StatusFlag::OverflowFlag.mask();
    assert_eq!(pc_after(JumpType::JGE, 1, 0, 0x2000), 0x2002);
    assert_eq!(pc_after(JumpType::JGE, 1, negative | overflow, 0x2000), 0x2002);
    assert_eq!(pc_after(JumpType::JGE, 1, negative, 0x2000), 0x2000);
    assert_eq!(pc_after(JumpType::JGE, 1, overflow, 0x2000), 0x2000);
    assert_eq!(pc_after(JumpType::JL, 1, negative, 0x2000), 0x2002);
    assert_eq!(pc_after(JumpType::JL, 1, overflow, 0x2000), 0x2002);
    assert_eq!(pc_after(JumpType::JL, 1, 0, 0x2000), 0x2000);
    assert_eq!(pc_after(JumpType::JL, 1, negative | overflow, 0x2000), 0x2000);
}

#[test]
fn jmp_is_always_taken() {
    assert_eq!(pc_after(JumpType::JMP, 5, 0, 0x2000), 0x200A);
    assert_eq!(pc_after(JumpType::JMP, 5, 0xFFFF, 0x2000), 0x200A);
    assert_eq!(pc_after(JumpType::JMP, 0, 0, 0x2000), 0x2000);
}

#[test]
fn taken_jump_moves_by_twice_the_displacement_and_wraps() {
    assert_eq!(pc_after(JumpType::JMP, -1, 0, 0x1002), 0x1000);
    assert_eq!(pc_after(JumpType::JMP, 511, 0, 0x1002), 0x1400);
    assert_eq!(pc_after(JumpType::JMP, -512, 0, 0x1002), 0x0C02);
    assert_eq!(pc_after(JumpType::JMP, -2, 0, 0x0002), 0xFFFE);
    assert_eq!(pc_after(JumpType::JMP, 2, 0, 0xFFFE), 0x0002);
    assert_eq!(pc_after(JumpType::JMP, 32767, 0, 0x0004), 0x0002);
    assert_eq!(pc_after(JumpType::JMP, -32768, 0, 0x0004), 0x0004);
}

#[test]
fn jump_with_unknown_condition_is_a_parse_error() {
    let instruction = Instruction::new(0x0300, 0x3C05);
    let jump = JumpInstruction { instruction, jump_type: JumpType::Unknown, offset: 5 };
    let mut cpu = CPU::new(Memory::new());
    cpu.set_pc(0x0302);
    cpu.set_sr(0x0003);
    assert_eq!(jump.execute(&mut cpu), ExecutionResult::ParseError(instruction));
    assert_eq!(cpu.get_pc(), 0x0302);
    assert_eq!(cpu.get_sr(), 0x0003);
    assert_eq!(Executable::Jump(jump).execute(&mut cpu), ExecutionResult::ParseError(instruction));
    assert_eq!(cpu.get_pc(), 0x0302);
}

#[test]
fn executable_forwards_to_the_jump() {
    let instruction = Instruction::new(0x1000, 0x3C03);
    let jump = decode(0x3C03);
    let executable = Executable::Jump(jump);
    assert_eq!(executable.get_extensions_amount(), 0);
    assert_eq!(executable.get_instruction_type(), InstructionType::JMP);
    assert_eq!(executable.get_instruction_raw(), instruction);
    let mut cpu = CPU::new(Memory::new());
    cpu.set_pc(0x1002);
    assert_eq!(executable.execute(&mut cpu), ExecutionResult::Done);
    assert_eq!(cpu.get_pc(), 0x1008);
}

#[test]
fn mnemonic_codes_round_trip() {
    let table: [(u16, InstructionType); 28] = [
        (0x00, InstructionType::RRC),
        (0x01, InstructionType::SWPB),
        (0x02, InstructionType::RRA),
        (0x03, InstructionType::SXT),
        (0x04, InstructionType::PUSH),
        (0x05, InstructionType::CALL),
        (0x06, InstructionType::RETI),
        (0x10, InstructionType::JNZ),
        (0x11, InstructionType::JZ),
        (0x12, InstructionType::JNC),
        (0x13, InstructionType::JC),
        (0x14, InstructionType::JN),
        (0x15, InstructionType::JGE),
        (0x16, InstructionType::JL),
        (0x17, InstructionType::JMP),
        (0x20, InstructionType::MOV),
        (0x21, InstructionType::ADD),
        (0x22, InstructionType::ADDC),
        (0x23, InstructionType::SUBC),
        (0x24, InstructionType::SUB),
        (0x25, InstructionType::CMP),
        (0x26, InstructionType::DADD),
        (0x27, InstructionType::BIT),
        (0x28, InstructionType::BIC),
        (0x29, InstructionType::BIS),
        (0x2A, InstructionType::XOR),
        (0x2B, InstructionType::AND),
        (0x30, InstructionType::Unknown),
    ];
    for (code, mnemonic) in table {
        assert_eq!(InstructionType::from_u16(code), Some(mnemonic));
        assert_eq!(mnemonic.to_u16(), code);
    }
    let mut known: u32 = 0;
    for code in 0..=0xFFFFu16 {
        if let Some(mnemonic) = InstructionType::from_u16(code) {
            assert_eq!(mnemonic.to_u16(), code);
            known += 1;
        }
    }
    assert_eq!(known, 28);
}

#[test]
fn codes_without_a_mnemonic() {
    assert_eq!(InstructionType::from_u16(0x07), None);
    assert_eq!(InstructionType::from_u16(0x0F), None);
    assert_eq!(InstructionType::from_u16(0x18), None);
    assert_eq!(InstructionType::from_u16(0x2C), None);
    assert_eq!(InstructionType::from_u16(0x31), None);
    assert_eq!(InstructionType::from_u16(0x0100), None);
    assert_eq!(InstructionType::from_u16(0xFFFF), None);
}
