//! The instructions that the executor knows, and the opcode byte of each.

use vstd::prelude::*;
use crate::registers::Reg16;

verus! {

/// Where an 8-bit operand lives: a register, or the byte that HL points to.
#[derive(Clone, Copy, Debug, PartialEq, Eq, Structural)]
pub enum Operand8 {
    B,
    C,
    D,
    E,
    H,
    L,
    /// The byte in memory at the address held in HL.
    HlIndirect,
    A,
}

/// The address register of an accumulator load or store, with what
/// happens to it afterwards.
#[derive(Clone, Copy, Debug, PartialEq, Eq, Structural)]
pub enum Pointer {
    BC,
    DE,
    /// HL, incremented after the access.
    HlIncrement,
    /// HL, decremented after the access.
    HlDecrement,
}

/// The condition of a conditional jump.
#[derive(Clone, Copy, Debug, PartialEq, Eq, Structural)]
pub enum Condition {
    /// Z is clear.
    NZ,
    /// Z is set.
    Z,
    /// C is clear.
    NC,
    /// C is set.
    C,
}

/// One instruction, operands that follow the opcode byte not included.
#[derive(Clone, Copy, Debug, PartialEq, Eq, Structural)]
pub enum Instruction {
    /// NOP
    Nop,
    /// LD r16, n16
    LoadImmediate16(Reg16),
    /// LD [BC], A; LD [DE], A; LD [HL+], A; LD [HL-], A
    StoreAccumulator(Pointer),
    /// LD A, [BC]; LD A, [DE]; LD A, [HL+]; LD A, [HL-]
    LoadAccumulator(Pointer),
    /// LD [n16], SP
    StoreStackPointer,
    /// INC r16
    Increment16(Reg16),
    /// DEC r16
    Decrement16(Reg16),
    /// ADD HL, r16
    AddHl(Reg16),
    /// INC r8; INC [HL]
    Increment8(Operand8),
    /// DEC r8; DEC [HL]
    Decrement8(Operand8),
    /// LD r8, n8; LD [HL], n8
    LoadImmediate8(Operand8),
    /// RLCA
    Rlca,
    /// RRCA
    Rrca,
    /// RLA
    Rla,
    /// RRA
    Rra,
    /// DAA
    Daa,
    /// CPL
    Cpl,
    /// SCF
    Scf,
    /// CCF
    Ccf,
    /// STOP
    Stop,
    /// JR e8
    JumpRelative,
    /// JR cc, e8
    JumpRelativeIf(Condition),
    /// LD r8, r8; LD r8, [HL]; LD [HL], r8
    Load8(Operand8, Operand8),
    /// HALT
    Halt,
    /// ADD A, r8; ADD A, [HL]
    Add(Operand8),
    /// ADC A, r8
    AddWithCarry(Operand8),
    /// JP n16
    Jump,
    /// ADD A, n8
    AddImmediate,
    /// SUB A, n8
    SubtractImmediate,
    /// LDH [n8], A
    StoreHighImmediate,
    /// LDH [C], A
    StoreHighC,
    /// LD [n16], A
    StoreAbsolute,
    /// LDH A, [C]
    LoadHighC,
    /// An opcode byte without a handler.
    Unknown(u8),
}

/// The 8-bit operand that a three-bit field of an opcode selects.
pub open spec fn operand_field(i: int) -> Operand8 {
    if i == 0 {
        Operand8::B
    } else if i == 1 {
        Operand8::C
    } else if i == 2 {
        Operand8::D
    } else if i == 3 {
        Operand8::E
    } else if i == 4 {
        Operand8::H
    } else if i == 5 {
        Operand8::L
    } else if i == 6 {
        Operand8::HlIndirect
    } else {
        Operand8::A
    }
}

/// The 16-bit register that a two-bit field of an opcode selects.
pub open spec fn reg16_field(i: int) -> Reg16 {
    if i == 0 {
        Reg16::BC
    } else if i == 1 {
        Reg16::DE
    } else if i == 2 {
        Reg16::HL
    } else {
        Reg16::SP
    }
}

/// The address register that a two-bit field of an opcode selects.
pub open spec fn pointer_field(i: int) -> Pointer {
    if i == 0 {
        Pointer::BC
    } else if i == 1 {
        Pointer::DE
    } else if i == 2 {
        Pointer::HlIncrement
    } else {
        Pointer::HlDecrement
    }
}

/// The condition that a two-bit field of an opcode selects.
pub open spec fn condition_field(i: int) -> Condition {
    if i == 0 {
        Condition::NZ
    } else if i == 1 {
        Condition::Z
    } else if i == 2 {
        Condition::NC
    } else {
        Condition::C
    }
}

/// The instruction of the first quarter of the opcode space, from the
/// middle field `y` and the low field `z` of the opcode.
pub open spec fn decode_low_quarter(y: int, z: int) -> Instruction {
    if z == 0 {
        if y == 0 {
            Instruction::Nop
        } else if y == 1 {
            Instruction::StoreStackPointer
        } else if y == 2 {
            Instruction::Stop
        } else if y == 3 {
            Instruction::JumpRelative
        } else {
            Instruction::JumpRelativeIf(condition_field(y - 4))
        }
    } else if z == 1 {
        if y % 2 == 0 {
            Instruction::LoadImmediate16(reg16_field(y / 2))
        } else {
            Instruction::AddHl(reg16_field(y / 2))
        }
    } else if z == 2 {
        if y % 2 == 0 {
            Instruction::StoreAccumulator(pointer_field(y / 2))
        } else {
            Instruction::LoadAccumulator(pointer_field(y / 2))
        }
    } else if z == 3 {
        if y % 2 == 0 {
            Instruction::Increment16(reg16_field(y / 2))
        } else {
            Instruction::Decrement16(reg16_field(y / 2))
        }
    } else if z == 4 {
        Instruction::Increment8(operand_field(y))
    } else if z == 5 {
        Instruction::Decrement8(operand_field(y))
    } else if z == 6 {
        Instruction::LoadImmediate8(operand_field(y))
    } else if y == 0 {
        Instruction::Rlca
    } else if y == 1 {
        Instruction::Rrca
    } else if y == 2 {
        Instruction::Rla
    } else if y == 3 {
        Instruction::Rra
    } else if y == 4 {
        Instruction::Daa
    } else if y == 5 {
        Instruction::Cpl
    } else if y == 6 {
        Instruction::Scf
    } else {
        Instruction::Ccf
    }
}

/// The instruction that the encoding gives an opcode byte, read as three
/// fields: the top two bits, the middle three and the low three. A byte
/// without a handler is `Unknown`.
pub open spec fn decode_fields(opcode: u8) -> Instruction {
    let x = opcode as int / 0x40;
    let y = (opcode as int / 8) % 8;
    let z = opcode as int % 8;
    if x == 0 {
        decode_low_quarter(y, z)
    } else if opcode == 0x76 {
        Instruction::Halt
    } else if x == 1 {
        Instruction::Load8(operand_field(y), operand_field(z))
    } else if x == 2 && y == 0 {
        Instruction::Add(operand_field(z))
    } else if x == 2 && y == 1 && z < 6 {
        Instruction::AddWithCarry(operand_field(z))
    } else if opcode == 0xC3 {
        Instruction::Jump
    } else if opcode == 0xC6 {
        Instruction::AddImmediate
    } else if opcode == 0xD6 {
        Instruction::SubtractImmediate
    } else if opcode == 0xE0 {
        Instruction::StoreHighImmediate
    } else if opcode == 0xE2 {
        Instruction::StoreHighC
    } else if opcode == 0xEA {
        Instruction::StoreAbsolute
    } else if opcode == 0xF2 {
        Instruction::LoadHighC
    } else {
        Instruction::Unknown(opcode)
    }
}

/// The dispatch table: the instruction that each opcode byte stands for.
/// A byte without a handler stands for `Unknown`.
pub open spec fn spec_decode(opcode: u8) -> Instruction {
    if opcode == 0x00 {
        Instruction::Nop
    }     else if opcode == 0x01 {
        Instruction::LoadImmediate16(Reg16::BC)
    }     else if opcode == 0x02 {
        Instruction::StoreAccumulator(Pointer::BC)
    }     else if opcode == 0x03 {
        Instruction::Increment16(Reg16::BC)
    }     else if opcode == 0x04 {
        Instruction::Increment8(Operand8::B)
    }     else if opcode == 0x05 {
        Instruction::Decrement8(Operand8::B)
    }     else if opcode == 0x06 {
        Instruction::LoadImmediate8(Operand8::B)
    }     else if opcode == 0x07 {
        Instruction::Rlca
    }     else if opcode == 0x08 {
        Instruction::StoreStackPointer
    }     else if opcode == 0x09 {
        Instruction::AddHl(Reg16::BC)
    }     else if opcode == 0x0A {
        Instruction::LoadAccumulator(Pointer::BC)
    }     else if opcode == 0x0B {
        Instruction::Decrement16(Reg16::BC)
    }     else if opcode == 0x0C {
        Instruction::Increment8(Operand8::C)
    }     else if opcode == 0x0D {
        Instruction::Decrement8(Operand8::C)
    }     else if opcode == 0x0E {
        Instruction::LoadImmediate8(Operand8::C)
    }     else if opcode == 0x0F {
        Instruction::Rrca
    }     else if opcode == 0x10 {
        Instruction::Stop
    }     else if opcode == 0x11 {
        Instruction::LoadImmediate16(Reg16::DE)
    }     else if opcode == 0x12 {
        Instruction::StoreAccumulator(Pointer::DE)
    }     else if opcode == 0x13 {
        Instruction::Increment16(Reg16::DE)
    }     else if opcode == 0x14 {
        Instruction::Increment8(Operand8::D)
    }     else if opcode == 0x15 {
        Instruction::Decrement8(Operand8::D)
    }     else if opcode == 0x16 {
        Instruction::LoadImmediate8(Operand8::D)
    }     else if opcode == 0x17 {
        Instruction::Rla
    }     else if opcode == 0x18 {
        Instruction::JumpRelative
    }     else if opcode == 0x19 {
        Instruction::AddHl(Reg16::DE)
    }     else if opcode == 0x1A {
        Instruction::LoadAccumulator(Pointer::DE)
    }     else if opcode == 0x1B {
        Instruction::Decrement16(Reg16::DE)
    }     else if opcode == 0x1C {
        Instruction::Increment8(Operand8::E)
    }     else if opcode == 0x1D {
        Instruction::Decrement8(Operand8::E)
    }     else if opcode == 0x1E {
        Instruction::LoadImmediate8(Operand8::E)
    }     else if opcode == 0x1F {
        Instruction::Rra
    }     else if opcode == 0x20 {
        Instruction::JumpRelativeIf(Condition::NZ)
    }     else if opcode == 0x21 {
        Instruction::LoadImmediate16(Reg16::HL)
    }     else if opcode == 0x22 {
        Instruction::StoreAccumulator(Pointer::HlIncrement)
    }     else if opcode == 0x23 {
        Instruction::Increment16(Reg16::HL)
    }     else if opcode == 0x24 {
        Instruction::Increment8(Operand8::H)
    }     else if opcode == 0x25 {
        Instruction::Decrement8(Operand8::H)
    }     else if opcode == 0x26 {
        Instruction::LoadImmediate8(Operand8::H)
    }     else if opcode == 0x27 {
        Instruction::Daa
    }     else if opcode == 0x28 {
        Instruction::JumpRelativeIf(Condition::Z)
    }     else if opcode == 0x29 {
        Instruction::AddHl(Reg16::HL)
    }     else if opcode == 0x2A {
        Instruction::LoadAccumulator(Pointer::HlIncrement)
    }     else if opcode == 0x2B {
        Instruction::Decrement16(Reg16::HL)
    }     else if opcode == 0x2C {
        Instruction::Increment8(Operand8::L)
    }     else if opcode == 0x2D {
        Instruction::Decrement8(Operand8::L)
    }     else if opcode == 0x2E {
        Instruction::LoadImmediate8(Operand8::L)
    }     else if opcode == 0x2F {
        Instruction::Cpl
    }     else if opcode == 0x30 {
        Instruction::JumpRelativeIf(Condition::NC)
    }     else if opcode == 0x31 {
        Instruction::LoadImmediate16(Reg16::SP)
    }     else if opcode == 0x32 {
        Instruction::StoreAccumulator(Pointer::HlDecrement)
    }     else if opcode == 0x33 {
        Instruction::Increment16(Reg16::SP)
    }     else if opcode == 0x34 {
        Instruction::Increment8(Operand8::HlIndirect)
    }     else if opcode == 0x35 {
        Instruction::Decrement8(Operand8::HlIndirect)
    }     else if opcode == 0x36 {
        Instruction::LoadImmediate8(Operand8::HlIndirect)
    }     else if opcode == 0x37 {
        Instruction::Scf
    }     else if opcode == 0x38 {
        Instruction::JumpRelativeIf(Condition::C)
    }     else if opcode == 0x39 {
        Instruction::AddHl(Reg16::SP)
    }     else if opcode == 0x3A {
        Instruction::LoadAccumulator(Pointer::HlDecrement)
    }     else if opcode == 0x3B {
        Instruction::Decrement16(Reg16::SP)
    }     else if opcode == 0x3C {
        Instruction::Increment8(Operand8::A)
    }     else if opcode == 0x3D {
        Instruction::Decrement8(Operand8::A)
    }     else if opcode == 0x3E {
        Instruction::LoadImmediate8(Operand8::A)
    }     else if opcode == 0x3F {
        Instruction::Ccf
    }     else if opcode == 0x40 {
        Instruction::Load8(Operand8::B, Operand8::B)
    }     else if opcode == 0x41 {
        Instruction::Load8(Operand8::B, Operand8::C)
    }     else if opcode == 0x42 {
        Instruction::Load8(Operand8::B, Operand8::D)
    }     else if opcode == 0x43 {
        Instruction::Load8(Operand8::B, Operand8::E)
    }     else if opcode == 0x44 {
        Instruction::Load8(Operand8::B, Operand8::H)
    }     else if opcode == 0x45 {
        Instruction::Load8(Operand8::B, Operand8::L)
    }     else if opcode == 0x46 {
        Instruction::Load8(Operand8::B, Operand8::HlIndirect)
    }     else if opcode == 0x47 {
        Instruction::Load8(Operand8::B, Operand8::A)
    }     else if opcode == 0x48 {
        Instruction::Load8(Operand8::C, Operand8::B)
    }     else if opcode == 0x49 {
        Instruction::Load8(Operand8::C, Operand8::C)
    }     else if opcode == 0x4A {
        Instruction::Load8(Operand8::C, Operand8::D)
    }     else if opcode == 0x4B {
        Instruction::Load8(Operand8::C, Operand8::E)
    }     else if opcode == 0x4C {
        Instruction::Load8(Operand8::C, Operand8::H)
    }     else if opcode == 0x4D {
        Instruction::Load8(Operand8::C, Operand8::L)
    }     else if opcode == 0x4E {
        Instruction::Load8(Operand8::C, Operand8::HlIndirect)
    }     else if opcode == 0x4F {
        Instruction::Load8(Operand8::C, Operand8::A)
    }     else if opcode == 0x50 {
        Instruction::Load8(Operand8::D, Operand8::B)
    }     else if opcode == 0x51 {
        Instruction::Load8(Operand8::D, Operand8::C)
    }     else if opcode == 0x52 {
        Instruction::Load8(Operand8::D, Operand8::D)
    }     else if opcode == 0x53 {
        Instruction::Load8(Operand8::D, Operand8::E)
    }     else if opcode == 0x54 {
        Instruction::Load8(Operand8::D, Operand8::H)
    }     else if opcode == 0x55 {
        Instruction::Load8(Operand8::D, Operand8::L)
    }     else if opcode == 0x56 {
        Instruction::Load8(Operand8::D, Operand8::HlIndirect)
    }     else if opcode == 0x57 {
        Instruction::Load8(Operand8::D, Operand8::A)
    }     else if opcode == 0x58 {
        Instruction::Load8(Operand8::E, Operand8::B)
    }     else if opcode == 0x59 {
        Instruction::Load8(Operand8::E, Operand8::C)
    }     else if opcode == 0x5A {
        Instruction::Load8(Operand8::E, Operand8::D)
    }     else if opcode == 0x5B {
        Instruction::Load8(Operand8::E, Operand8::E)
    }     else if opcode == 0x5C {
        Instruction::Load8(Operand8::E, Operand8::H)
    }     else if opcode == 0x5D {
        Instruction::Load8(Operand8::E, Operand8::L)
    }     else if opcode == 0x5E {
        Instruction::Load8(Operand8::E, Operand8::HlIndirect)
    }     else if opcode == 0x5F {
        Instruction::Load8(Operand8::E, Operand8::A)
    }     else if opcode == 0x60 {
        Instruction::Load8(Operand8::H, Operand8::B)
    }     else if opcode == 0x61 {
        Instruction::Load8(Operand8::H, Operand8::C)
    }     else if opcode == 0x62 {
        Instruction::Load8(Operand8::H, Operand8::D)
    }     else if opcode == 0x63 {
        Instruction::Load8(Operand8::H, Operand8::E)
    }     else if opcode == 0x64 {
        Instruction::Load8(Operand8::H, Operand8::H)
    }     else if opcode == 0x65 {
        Instruction::Load8(Operand8::H, Operand8::L)
    }     else if opcode == 0x66 {
        Instruction::Load8(Operand8::H, Operand8::HlIndirect)
    }     else if opcode == 0x67 {
        Instruction::Load8(Operand8::H, Operand8::A)
    }     else if opcode == 0x68 {
        Instruction::Load8(Operand8::L, Operand8::B)
    }     else if opcode == 0x69 {
        Instruction::Load8(Operand8::L, Operand8::C)
    }     else if opcode == 0x6A {
        Instruction::Load8(Operand8::L, Operand8::D)
    }     else if opcode == 0x6B {
        Instruction::Load8(Operand8::L, Operand8::E)
    }     else if opcode == 0x6C {
        Instruction::Load8(Operand8::L, Operand8::H)
    }     else if opcode == 0x6D {
        Instruction::Load8(Operand8::L, Operand8::L)
    }     else if opcode == 0x6E {
        Instruction::Load8(Operand8::L, Operand8::HlIndirect)
    }     else if opcode == 0x6F {
        Instruction::Load8(Operand8::L, Operand8::A)
    }     else if opcode == 0x70 {
        Instruction::Load8(Operand8::HlIndirect, Operand8::B)
    }     else if opcode == 0x71 {
        Instruction::Load8(Operand8::HlIndirect, Operand8::C)
    }     else if opcode == 0x72 {
        Instruction::Load8(Operand8::HlIndirect, Operand8::D)
    }     else if opcode == 0x73 {
        Instruction::Load8(Operand8::HlIndirect, Operand8::E)
    }     else if opcode == 0x74 {
        Instruction::Load8(Operand8::HlIndirect, Operand8::H)
    }     else if opcode == 0x75 {
        Instruction::Load8(Operand8::HlIndirect, Operand8::L)
    }     else if opcode == 0x76 {
        Instruction::Halt
    }     else if opcode == 0x77 {
        Instruction::Load8(Operand8::HlIndirect, Operand8::A)
    }     else if opcode == 0x78 {
        Instruction::Load8(Operand8::A, Operand8::B)
    }     else if opcode == 0x79 {
        Instruction::Load8(Operand8::A, Operand8::C)
    }     else if opcode == 0x7A {
        Instruction::Load8(Operand8::A, Operand8::D)
    }     else if opcode == 0x7B {
        Instruction::Load8(Operand8::A, Operand8::E)
    }     else if opcode == 0x7C {
        Instruction::Load8(Operand8::A, Operand8::H)
    }     else if opcode == 0x7D {
        Instruction::Load8(Operand8::A, Operand8::L)
    }     else if opcode == 0x7E {
        Instruction::Load8(Operand8::A, Operand8::HlIndirect)
    }     else if opcode == 0x7F {
        Instruction::Load8(Operand8::A, Operand8::A)
    }     else if opcode == 0x80 {
        Instruction::Add(Operand8::B)
    }     else if opcode == 0x81 {
        Instruction::Add(Operand8::C)
    }     else if opcode == 0x82 {
        Instruction::Add(Operand8::D)
    }     else if opcode == 0x83 {
        Instruction::Add(Operand8::E)
    }     else if opcode == 0x84 {
        Instruction::Add(Operand8::H)
    }     else if opcode == 0x85 {
        Instruction::Add(Operand8::L)
    }     else if opcode == 0x86 {
        Instruction::Add(Operand8::HlIndirect)
    }     else if opcode == 0x87 {
        Instruction::Add(Operand8::A)
    }     else if opcode == 0x88 {
        Instruction::AddWithCarry(Operand8::B)
    }     else if opcode == 0x89 {
        Instruction::AddWithCarry(Operand8::C)
    }     else if opcode == 0x8A {
        Instruction::AddWithCarry(Operand8::D)
    }     else if opcode == 0x8B {
        Instruction::AddWithCarry(Operand8::E)
    }     else if opcode == 0x8C {
        Instruction::AddWithCarry(Operand8::H)
    }     else if opcode == 0x8D {
        Instruction::AddWithCarry(Operand8::L)
    }     else if opcode == 0xC3 {
        Instruction::Jump
    }     else if opcode == 0xC6 {
        Instruction::AddImmediate
    }     else if opcode == 0xD6 {
        Instruction::SubtractImmediate
    }     else if opcode == 0xE0 {
        Instruction::StoreHighImmediate
    }     else if opcode == 0xE2 {
        Instruction::StoreHighC
    }     else if opcode == 0xEA {
        Instruction::StoreAbsolute
    }     else if opcode == 0xF2 {
        Instruction::LoadHighC
    } else {
        Instruction::Unknown(opcode)
    }
}

/// Looks an opcode byte up in the dispatch table.
#[verifier::when_used_as_spec(spec_decode)]
pub fn decode(opcode: u8) -> (instruction: Instruction)
    ensures
        instruction == spec_decode(opcode),
{
    match opcode {
        0x00 => Instruction::Nop,
        0x01 => Instruction::LoadImmediate16(Reg16::BC),
        0x02 => Instruction::StoreAccumulator(Pointer::BC),
        0x03 => Instruction::Increment16(Reg16::BC),
        0x04 => Instruction::Increment8(Operand8::B),
        0x05 => Instruction::Decrement8(Operand8::B),
        0x06 => Instruction::LoadImmediate8(Operand8::B),
        0x07 => Instruction::Rlca,
        0x08 => Instruction::StoreStackPointer,
        0x09 => Instruction::AddHl(Reg16::BC),
        0x0A => Instruction::LoadAccumulator(Pointer::BC),
        0x0B => Instruction::Decrement16(Reg16::BC),
        0x0C => Instruction::Increment8(Operand8::C),
        0x0D => Instruction::Decrement8(Operand8::C),
        0x0E => Instruction::LoadImmediate8(Operand8::C),
        0x0F => Instruction::Rrca,
        0x10 => Instruction::Stop,
        0x11 => Instruction::LoadImmediate16(Reg16::DE),
        0x12 => Instruction::StoreAccumulator(Pointer::DE),
        0x13 => Instruction::Increment16(Reg16::DE),
        0x14 => Instruction::Increment8(Operand8::D),
        0x15 => Instruction::Decrement8(Operand8::D),
        0x16 => Instruction::LoadImmediate8(Operand8::D),
        0x17 => Instruction::Rla,
        0x18 => Instruction::JumpRelative,
        0x19 => Instruction::AddHl(Reg16::DE),
        0x1A => Instruction::LoadAccumulator(Pointer::DE),
        0x1B => Instruction::Decrement16(Reg16::DE),
        0x1C => Instruction::Increment8(Operand8::E),
        0x1D => Instruction::Decrement8(Operand8::E),
        0x1E => Instruction::LoadImmediate8(Operand8::E),
        0x1F => Instruction::Rra,
        0x20 => Instruction::JumpRelativeIf(Condition::NZ),
        0x21 => Instruction::LoadImmediate16(Reg16::HL),
        0x22 => Instruction::StoreAccumulator(Pointer::HlIncrement),
        0x23 => Instruction::Increment16(Reg16::HL),
        0x24 => Instruction::Increment8(Operand8::H),
        0x25 => Instruction::Decrement8(Operand8::H),
        0x26 => Instruction::LoadImmediate8(Operand8::H),
        0x27 => Instruction::Daa,
        0x28 => Instruction::JumpRelativeIf(Condition::Z),
        0x29 => Instruction::AddHl(Reg16::HL),
        0x2A => Instruction::LoadAccumulator(Pointer::HlIncrement),
        0x2B => Instruction::Decrement16(Reg16::HL),
        0x2C => Instruction::Increment8(Operand8::L),
        0x2D => Instruction::Decrement8(Operand8::L),
        0x2E => Instruction::LoadImmediate8(Operand8::L),
        0x2F => Instruction::Cpl,
        0x30 => Instruction::JumpRelativeIf(Condition::NC),
        0x31 => Instruction::LoadImmediate16(Reg16::SP),
        0x32 => Instruction::StoreAccumulator(Pointer::HlDecrement),
        0x33 => Instruction::Increment16(Reg16::SP),
        0x34 => Instruction::Increment8(Operand8::HlIndirect),
        0x35 => Instruction::Decrement8(Operand8::HlIndirect),
        0x36 => Instruction::LoadImmediate8(Operand8::HlIndirect),
        0x37 => Instruction::Scf,
        0x38 => Instruction::JumpRelativeIf(Condition::C),
        0x39 => Instruction::AddHl(Reg16::SP),
        0x3A => Instruction::LoadAccumulator(Pointer::HlDecrement),
        0x3B => Instruction::Decrement16(Reg16::SP),
        0x3C => Instruction::Increment8(Operand8::A),
        0x3D => Instruction::Decrement8(Operand8::A),
        0x3E => Instruction::LoadImmediate8(Operand8::A),
        0x3F => Instruction::Ccf,
        0x40 => Instruction::Load8(Operand8::B, Operand8::B),
        0x41 => Instruction::Load8(Operand8::B, Operand8::C),
        0x42 => Instruction::Load8(Operand8::B, Operand8::D),
        0x43 => Instruction::Load8(Operand8::B, Operand8::E),
        0x44 => Instruction::Load8(Operand8::B, Operand8::H),
        0x45 => Instruction::Load8(Operand8::B, Operand8::L),
        0x46 => Instruction::Load8(Operand8::B, Operand8::HlIndirect),
        0x47 => Instruction::Load8(Operand8::B, Operand8::A),
        0x48 => Instruction::Load8(Operand8::C, Operand8::B),
        0x49 => Instruction::Load8(Operand8::C, Operand8::C),
        0x4A => Instruction::Load8(Operand8::C, Operand8::D),
        0x4B => Instruction::Load8(Operand8::C, Operand8::E),
        0x4C => Instruction::Load8(Operand8::C, Operand8::H),
        0x4D => Instruction::Load8(Operand8::C, Operand8::L),
        0x4E => Instruction::Load8(Operand8::C, Operand8::HlIndirect),
        0x4F => Instruction::Load8(Operand8::C, Operand8::A),
        0x50 => Instruction::Load8(Operand8::D, Operand8::B),
        0x51 => Instruction::Load8(Operand8::D, Operand8::C),
        0x52 => Instruction::Load8(Operand8::D, Operand8::D),
        0x53 => Instruction::Load8(Operand8::D, Operand8::E),
        0x54 => Instruction::Load8(Operand8::D, Operand8::H),
        0x55 => Instruction::Load8(Operand8::D, Operand8::L),
        0x56 => Instruction::Load8(Operand8::D, Operand8::HlIndirect),
        0x57 => Instruction::Load8(Operand8::D, Operand8::A),
        0x58 => Instruction::Load8(Operand8::E, Operand8::B),
        0x59 => Instruction::Load8(Operand8::E, Operand8::C),
        0x5A => Instruction::Load8(Operand8::E, Operand8::D),
        0x5B => Instruction::Load8(Operand8::E, Operand8::E),
        0x5C => Instruction::Load8(Operand8::E, Operand8::H),
        0x5D => Instruction::Load8(Operand8::E, Operand8::L),
        0x5E => Instruction::Load8(Operand8::E, Operand8::HlIndirect),
        0x5F => Instruction::Load8(Operand8::E, Operand8::A),
        0x60 => Instruction::Load8(Operand8::H, Operand8::B),
        0x61 => Instruction::Load8(Operand8::H, Operand8::C),
        0x62 => Instruction::Load8(Operand8::H, Operand8::D),
        0x63 => Instruction::Load8(Operand8::H, Operand8::E),
        0x64 => Instruction::Load8(Operand8::H, Operand8::H),
        0x65 => Instruction::Load8(Operand8::H, Operand8::L),
        0x66 => Instruction::Load8(Operand8::H, Operand8::HlIndirect),
        0x67 => Instruction::Load8(Operand8::H, Operand8::A),
        0x68 => Instruction::Load8(Operand8::L, Operand8::B),
        0x69 => Instruction::Load8(Operand8::L, Operand8::C),
        0x6A => Instruction::Load8(Operand8::L, Operand8::D),
        0x6B => Instruction::Load8(Operand8::L, Operand8::E),
        0x6C => Instruction::Load8(Operand8::L, Operand8::H),
        0x6D => Instruction::Load8(Operand8::L, Operand8::L),
        0x6E => Instruction::Load8(Operand8::L, Operand8::HlIndirect),
        0x6F => Instruction::Load8(Operand8::L, Operand8::A),
        0x70 => Instruction::Load8(Operand8::HlIndirect, Operand8::B),
        0x71 => Instruction::Load8(Operand8::HlIndirect, Operand8::C),
        0x72 => Instruction::Load8(Operand8::HlIndirect, Operand8::D),
        0x73 => Instruction::Load8(Operand8::HlIndirect, Operand8::E),
        0x74 => Instruction::Load8(Operand8::HlIndirect, Operand8::H),
        0x75 => Instruction::Load8(Operand8::HlIndirect, Operand8::L),
        0x76 => Instruction::Halt,
        0x77 => Instruction::Load8(Operand8::HlIndirect, Operand8::A),
        0x78 => Instruction::Load8(Operand8::A, Operand8::B),
        0x79 => Instruction::Load8(Operand8::A, Operand8::C),
        0x7A => Instruction::Load8(Operand8::A, Operand8::D),
        0x7B => Instruction::Load8(Operand8::A, Operand8::E),
        0x7C => Instruction::Load8(Operand8::A, Operand8::H),
        0x7D => Instruction::Load8(Operand8::A, Operand8::L),
        0x7E => Instruction::Load8(Operand8::A, Operand8::HlIndirect),
        0x7F => Instruction::Load8(Operand8::A, Operand8::A),
        0x80 => Instruction::Add(Operand8::B),
        0x81 => Instruction::Add(Operand8::C),
        0x82 => Instruction::Add(Operand8::D),
        0x83 => Instruction::Add(Operand8::E),
        0x84 => Instruction::Add(Operand8::H),
        0x85 => Instruction::Add(Operand8::L),
        0x86 => Instruction::Add(Operand8::HlIndirect),
        0x87 => Instruction::Add(Operand8::A),
        0x88 => Instruction::AddWithCarry(Operand8::B),
        0x89 => Instruction::AddWithCarry(Operand8::C),
        0x8A => Instruction::AddWithCarry(Operand8::D),
        0x8B => Instruction::AddWithCarry(Operand8::E),
        0x8C => Instruction::AddWithCarry(Operand8::H),
        0x8D => Instruction::AddWithCarry(Operand8::L),
        0xC3 => Instruction::Jump,
        0xC6 => Instruction::AddImmediate,
        0xD6 => Instruction::SubtractImmediate,
        0xE0 => Instruction::StoreHighImmediate,
        0xE2 => Instruction::StoreHighC,
        0xEA => Instruction::StoreAbsolute,
        0xF2 => Instruction::LoadHighC,
        _ => Instruction::Unknown(opcode),
    }
}

/// The dispatch table follows the encoding: every opcode stands for the
/// instruction that its three fields give.
pub proof fn lemma_decode_fields(opcode: u8)
    ensures
        spec_decode(opcode) == decode_fields(opcode),
{
}

/// HALT and STOP have one opcode each.
pub proof fn lemma_halt_and_stop(opcode: u8)
    ensures
        spec_decode(opcode) == Instruction::Halt <==> opcode == 0x76,
        spec_decode(opcode) == Instruction::Stop <==> opcode == 0x10,
{
}

/// Whether a decoded opcode has a handler.
pub open spec fn known(opcode: u8) -> bool {
    spec_decode(opcode) != Instruction::Unknown(opcode)
}

/// The opcodes with a handler are the first two quarters of the opcode
/// space, 0x80 to 0x8D, and seven single opcodes of the last quarter.
pub proof fn lemma_known_opcodes(opcode: u8)
    ensures
        known(opcode) <==> (opcode <= 0x8D || opcode == 0xC3 || opcode == 0xC6 || opcode == 0xD6
            || opcode == 0xE0 || opcode == 0xE2 || opcode == 0xEA || opcode == 0xF2),
{
}

} // verus!
