use gb_emu::instruction::{decode, Condition, Instruction, Operand8, Pointer};
use gb_emu::registers::Reg16;

fn operand(field: u8) -> Operand8 {
    match field {
        0 => Operand8::B,
        1 => Operand8::C,
        2 => Operand8::D,
        3 => Operand8::E,
        4 => Operand8::H,
        5 => Operand8::L,
        6 => Operand8::HlIndirect,
        _ => Operand8::A,
    }
}

#[test]
fn single_opcodes() {
    assert_eq!(decode(0x00), Instruction::Nop);
    assert_eq!(decode(0x08), Instruction::StoreStackPointer);
    assert_eq!(decode(0x10), Instruction::Stop);
    assert_eq!(decode(0x18), Instruction::JumpRelative);
    assert_eq!(decode(0x07), Instruction::Rlca);
    assert_eq!(decode(0x0F), Instruction::Rrca);
    assert_eq!(decode(0x17), Instruction::Rla);
    assert_eq!(decode(0x1F), Instruction::Rra);
    assert_eq!(decode(0x27), Instruction::Daa);
    assert_eq!(decode(0x2F), Instruction::Cpl);
    assert_eq!(decode(0x37), Instruction::Scf);
    assert_eq!(decode(0x3F), Instruction::Ccf);
    assert_eq!(decode(0x76), Instruction::Halt);
    assert_eq!(decode(0xC3), Instruction::Jump);
    assert_eq!(decode(0xC6), Instruction::AddImmediate);
    assert_eq!(decode(0xD6), Instruction::SubtractImmediate);
    assert_eq!(decode(0xE0), Instruction::StoreHighImmediate);
    assert_eq!(decode(0xE2), Instruction::StoreHighC);
    assert_eq!(decode(0xEA), Instruction::StoreAbsolute);
    assert_eq!(decode(0xF2), Instruction::LoadHighC);
}

#[test]
fn conditional_jumps() {
    assert_eq!(decode(0x20), Instruction::JumpRelativeIf(Condition::NZ));
    assert_eq!(decode(0x28), Instruction::JumpRelativeIf(Condition::Z));
    assert_eq!(decode(0x30), Instruction::JumpRelativeIf(Condition::NC));
    assert_eq!(decode(0x38), Instruction::JumpRelativeIf(Condition::C));
}

#[test]
fn sixteen_bit_columns() {
    let regs = [Reg16::BC, Reg16::DE, Reg16::HL, Reg16::SP];
    let pointers = [Pointer::BC, Pointer::DE, Pointer::HlIncrement, Pointer::HlDecrement];
    for i in 0..4usize {
        let row = (i as u8) << 4;
        assert_eq!(decode(row | 0x01), Instruction::LoadImmediate16(regs[i]));
        assert_eq!(decode(row | 0x02), Instruction::StoreAccumulator(pointers[i]));
        assert_eq!(decode(row | 0x03), Instruction::Increment16(regs[i]));
        assert_eq!(decode(row | 0x09), Instruction::AddHl(regs[i]));
        assert_eq!(decode(row | 0x0A), Instruction::LoadAccumulator(pointers[i]));
        assert_eq!(decode(row | 0x0B), Instruction::Decrement16(regs[i]));
    }
}

#[test]
fn eight_bit_columns() {
    for field in 0u8..8 {
        assert_eq!(decode((field << 3) | 0x04), Instruction::Increment8(operand(field)));
        assert_eq!(decode((field << 3) | 0x05), Instruction::Decrement8(operand(field)));
        assert_eq!(decode((field << 3) | 0x06), Instruction::LoadImmediate8(operand(field)));
        assert_eq!(decode(0x80 | field), Instruction::Add(operand(field)));
    }
    for field in 0u8..6 {
        assert_eq!(decode(0x88 | field), Instruction::AddWithCarry(operand(field)));
    }
    assert_eq!(decode(0x8E), Instruction::Unknown(0x8E));
    assert_eq!(decode(0x8F), Instruction::Unknown(0x8F));
}

#[test]
fn load_block() {
    for dst in 0u8..8 {
        for src in 0u8..8 {
            let opcode = 0x40 | (dst << 3) | src;
            if opcode == 0x76 {
                assert_eq!(decode(opcode), Instruction::Halt);
            } else {
                assert_eq!(decode(opcode), Instruction::Load8(operand(dst), operand(src)));
            }
        }
    }
}

#[test]
fn opcodes_without_a_handler() {
    let mut known = 0;
    for opcode in 0u8..=255 {
        let unknown = decode(opcode) == Instruction::Unknown(opcode);
        let expected_known = opcode <= 0x8D
            || [0xC3u8, 0xC6, 0xD6, 0xE0, 0xE2, 0xEA, 0xF2].contains(&opcode);
        assert_eq!(!unknown, expected_known, "opcode {:#04X}", opcode);
        if !unknown {
            known += 1;
        }
        assert!(!matches!(decode(opcode), Instruction::Unknown(other) if other != opcode));
    }
    assert_eq!(known, 149);
}
