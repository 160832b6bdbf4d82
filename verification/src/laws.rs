//! What holds of every state of the executor, proved from the model.

use vstd::prelude::*;
use crate::alu::{lemma_flags_well_formed, spec_dec, spec_high_byte, spec_inc, spec_jump_target,
    spec_low_byte, wrap16};
use crate::flags::{byte_of, spec_carry};
use crate::instruction::{known, lemma_halt_and_stop, spec_decode, Condition, Instruction};
use crate::machine::{ControlState, Machine, Notice};
use crate::mmu::lemma_write_then_read;
use crate::registers::Registers;

verus! {

/// The number of operand bytes that follow the opcode of an instruction.
pub open spec fn operand_bytes(instruction: Instruction) -> int {
    match instruction {
        Instruction::LoadImmediate16(_) => 2,
        Instruction::StoreStackPointer => 2,
        Instruction::Jump => 2,
        Instruction::StoreAbsolute => 2,
        Instruction::LoadImmediate8(_) => 1,
        Instruction::JumpRelative => 1,
        Instruction::JumpRelativeIf(_) => 1,
        Instruction::AddImmediate => 1,
        Instruction::SubtractImmediate => 1,
        Instruction::StoreHighImmediate => 1,
        _ => 0,
    }
}

/// Whether an instruction may set PC to something else than the address
/// after its last operand byte.
pub open spec fn is_jump(instruction: Instruction) -> bool {
    instruction == Instruction::Jump || instruction == Instruction::JumpRelative
        || instruction is JumpRelativeIf
}

/// Incrementing wraps from 0xFF to 0x00 with Z and H set; decrementing
/// wraps from 0x00 to 0xFF with N and H set and Z clear; C is kept by
/// both, and each undoes the other on every byte.
pub proof fn lemma_increment_decrement_wrap(value: u8, f: u8)
    ensures
        spec_inc(0xFF, f).value == 0x00,
        spec_inc(0xFF, f).flags == byte_of(true, false, true, spec_carry(f)),
        spec_dec(0x00, f).value == 0xFF,
        spec_dec(0x00, f).flags == byte_of(false, true, true, spec_carry(f)),
        spec_inc(value, f).value == (value + 1) % 0x100,
        spec_dec(value, f).value == (value - 1) % 0x100,
        spec_dec(spec_inc(value, f).value, f).value == value,
        spec_inc(spec_dec(value, f).value, f).value == value,
{
}

/// A fetch changes nothing but PC and the notices.
pub proof fn lemma_fetch(s: Machine)
    ensures
        s.after_fetch().regs == (Registers { pc: wrap16(s.regs.pc + 1), ..s.regs }),
        s.after_fetch().mem == s.mem,
        s.after_fetch().state == s.state,
        s.after_fetch().ime == s.ime,
        s.after_fetch().keeps_notices_of(s),
{
}

/// An instruction keeps the RAM regions at their size and the ROM image
/// as it is.
pub proof fn lemma_perform_keeps_memory_shape(s: Machine, instruction: Instruction)
    ensures
        s.mem.wf() ==> s.perform(instruction).mem.wf(),
        s.perform(instruction).mem.rom == s.mem.rom,
{
    match instruction {
        Instruction::StoreAccumulator(p) => {
            lemma_write_then_read(s.mem, s.pointer(p), s.regs.a);
        },
        Instruction::StoreStackPointer => {
            let addr = s.next_word();
            let first = s.after_fetch_word().after_write(addr, spec_low_byte(s.regs.sp));
            lemma_write_then_read(s.mem, addr, spec_low_byte(s.regs.sp));
            lemma_write_then_read(first.mem, wrap16(addr + 1), spec_high_byte(s.regs.sp));
        },
        Instruction::Increment8(loc) => {
            lemma_write_then_read(s.mem, s.regs.spec_hl(), spec_inc(s.operand(loc), s.regs.f).value);
        },
        Instruction::Decrement8(loc) => {
            lemma_write_then_read(s.mem, s.regs.spec_hl(), spec_dec(s.operand(loc), s.regs.f).value);
        },
        Instruction::LoadImmediate8(loc) => {
            lemma_write_then_read(s.mem, s.regs.spec_hl(), s.next_byte());
        },
        Instruction::Load8(dst, src) => {
            lemma_write_then_read(s.mem, s.regs.spec_hl(), s.operand(src));
        },
        Instruction::StoreHighImmediate => {
            lemma_write_then_read(s.mem, Machine::high_page(s.next_byte()), s.regs.a);
        },
        Instruction::StoreHighC => {
            lemma_write_then_read(s.mem, Machine::high_page(s.regs.c), s.regs.a);
        },
        Instruction::StoreAbsolute => {
            lemma_write_then_read(s.mem, s.next_word(), s.regs.a);
        },
        _ => {},
    }
}

/// An instruction leaves the lower nibble of F zero where it was zero.
pub proof fn lemma_perform_keeps_flags_well_formed(s: Machine, instruction: Instruction)
    ensures
        s.regs.well_formed() ==> s.perform(instruction).regs.well_formed(),
{
    let a = s.regs.a;
    let f = s.regs.f;
    match instruction {
        Instruction::AddHl(r) => {
            lemma_flags_well_formed(a, a, false, s.regs.spec_hl(), s.regs.spec_get16(r), f);
        },
        Instruction::Increment8(loc) => {
            lemma_flags_well_formed(a, s.operand(loc), false, 0, 0, f);
        },
        Instruction::Decrement8(loc) => {
            lemma_flags_well_formed(a, s.operand(loc), false, 0, 0, f);
        },
        Instruction::Add(loc) => {
            lemma_flags_well_formed(a, s.operand(loc), false, 0, 0, f);
        },
        Instruction::AddWithCarry(loc) => {
            lemma_flags_well_formed(a, s.operand(loc), spec_carry(f), 0, 0, f);
        },
        Instruction::AddImmediate => {
            lemma_flags_well_formed(a, s.next_byte(), false, 0, 0, f);
        },
        Instruction::SubtractImmediate => {
            lemma_flags_well_formed(a, s.next_byte(), false, 0, 0, f);
        },
        Instruction::Rlca => {
            lemma_flags_well_formed(a, a, false, 0, 0, f);
        },
        Instruction::Rrca => {
            lemma_flags_well_formed(a, a, false, 0, 0, f);
        },
        Instruction::Rla => {
            lemma_flags_well_formed(a, a, false, 0, 0, f);
        },
        Instruction::Rra => {
            lemma_flags_well_formed(a, a, false, 0, 0, f);
        },
        Instruction::Daa => {
            lemma_flags_well_formed(a, a, false, 0, 0, f);
        },
        Instruction::Cpl => {
            lemma_flags_well_formed(a, a, false, 0, 0, f);
        },
        Instruction::Scf => {
            lemma_flags_well_formed(a, a, false, 0, 0, f);
        },
        Instruction::Ccf => {
            lemma_flags_well_formed(a, a, false, 0, 0, f);
        },
        _ => {},
    }
}

/// A step keeps the RAM regions at their size and the ROM image as it
/// is, and leaves the lower nibble of F zero where it was zero.
pub proof fn lemma_step_keeps_well_formed(s: Machine)
    ensures
        s.mem.wf() ==> s.step().mem.wf(),
        s.step().mem.rom == s.mem.rom,
        s.regs.well_formed() ==> s.step().regs.well_formed(),
        s.wf() ==> s.step().wf(),
{
    lemma_fetch(s);
    lemma_perform_keeps_memory_shape(s.after_fetch(), spec_decode(s.next_byte()));
    lemma_perform_keeps_flags_well_formed(s.after_fetch(), spec_decode(s.next_byte()));
}

/// No access over the bus and no fetch drops a notice.
pub proof fn lemma_bus_keeps_notices(s: Machine, addr: u16, value: u8)
    ensures
        s.after_read(addr).keeps_notices_of(s),
        s.after_write(addr, value).keeps_notices_of(s),
        s.after_fetch().keeps_notices_of(s),
        s.after_fetch_word().keeps_notices_of(s),
{
    assert(s.after_fetch().after_fetch().keeps_notices_of(s.after_fetch()));
}

/// No instruction drops a notice.
pub proof fn lemma_perform_keeps_notices(s: Machine, instruction: Instruction)
    ensures
        s.perform(instruction).keeps_notices_of(s),
{
    lemma_bus_keeps_notices(s, 0, 0);
    let hl = s.regs.spec_hl();
    match instruction {
        Instruction::Nop => {},
        Instruction::LoadImmediate16(_) => {},
        Instruction::StoreAccumulator(p) => {
            lemma_bus_keeps_notices(s, s.pointer(p), s.regs.a);
        },
        Instruction::LoadAccumulator(p) => {
            lemma_bus_keeps_notices(s, s.pointer(p), 0);
        },
        Instruction::StoreStackPointer => {
            let addr = s.next_word();
            let fetched = s.after_fetch_word();
            let first = fetched.after_write(addr, spec_low_byte(s.regs.sp));
            lemma_bus_keeps_notices(fetched, addr, spec_low_byte(s.regs.sp));
            lemma_bus_keeps_notices(first, wrap16(addr + 1), spec_high_byte(s.regs.sp));
        },
        Instruction::Increment16(_) => {},
        Instruction::Decrement16(_) => {},
        Instruction::AddHl(_) => {},
        Instruction::Increment8(loc) => {
            let r = spec_inc(s.operand(loc), s.regs.f);
            lemma_bus_keeps_notices(s, hl, 0);
            lemma_bus_keeps_notices(s.after_operand_read(loc).with_f(r.flags), hl, r.value);
        },
        Instruction::Decrement8(loc) => {
            let r = spec_dec(s.operand(loc), s.regs.f);
            lemma_bus_keeps_notices(s, hl, 0);
            lemma_bus_keeps_notices(s.after_operand_read(loc).with_f(r.flags), hl, r.value);
        },
        Instruction::LoadImmediate8(_) => {
            lemma_bus_keeps_notices(s.after_fetch(), hl, s.next_byte());
        },
        Instruction::Rlca => {},
        Instruction::Rrca => {},
        Instruction::Rla => {},
        Instruction::Rra => {},
        Instruction::Daa => {},
        Instruction::Cpl => {},
        Instruction::Scf => {},
        Instruction::Ccf => {},
        Instruction::Stop => {},
        Instruction::JumpRelative => {},
        Instruction::JumpRelativeIf(_) => {},
        Instruction::Load8(_, src) => {
            lemma_bus_keeps_notices(s, hl, 0);
            lemma_bus_keeps_notices(s.after_operand_read(src), hl, s.operand(src));
        },
        Instruction::Halt => {},
        Instruction::Add(_) => {
            lemma_bus_keeps_notices(s, hl, 0);
        },
        Instruction::AddWithCarry(_) => {
            lemma_bus_keeps_notices(s, hl, 0);
        },
        Instruction::Jump => {},
        Instruction::AddImmediate => {},
        Instruction::SubtractImmediate => {},
        Instruction::StoreHighImmediate => {
            lemma_bus_keeps_notices(s.after_fetch(), Machine::high_page(s.next_byte()), s.regs.a);
        },
        Instruction::StoreHighC => {
            lemma_bus_keeps_notices(s, Machine::high_page(s.regs.c), s.regs.a);
        },
        Instruction::StoreAbsolute => {
            lemma_bus_keeps_notices(s.after_fetch_word(), s.next_word(), s.regs.a);
        },
        Instruction::LoadHighC => {
            lemma_bus_keeps_notices(s, Machine::high_page(s.regs.c), 0);
        },
        Instruction::Unknown(_) => {},
    }
}

/// An instruction never changes whether interrupts are enabled, and
/// changes the control state only where it is HALT or STOP.
pub proof fn lemma_perform_control(s: Machine, instruction: Instruction)
    ensures
        s.perform(instruction).ime == s.ime,
        instruction != Instruction::Halt && instruction != Instruction::Stop ==> s.perform(
            instruction,
        ).state == s.state,
        s.perform(Instruction::Stop).state == ControlState::Stopped,
        s.perform(Instruction::Halt).state == (if s.ime || !s.interrupt_pending() {
            ControlState::Halted
        } else {
            s.state
        }),
{
    match instruction {
        Instruction::Nop => {},
        Instruction::LoadImmediate16(_) => {},
        Instruction::StoreAccumulator(_) => {},
        Instruction::LoadAccumulator(_) => {},
        Instruction::StoreStackPointer => {},
        Instruction::Increment16(_) => {},
        Instruction::Decrement16(_) => {},
        Instruction::AddHl(_) => {},
        Instruction::Increment8(_) => {},
        Instruction::Decrement8(_) => {},
        Instruction::LoadImmediate8(_) => {},
        Instruction::Rlca => {},
        Instruction::Rrca => {},
        Instruction::Rla => {},
        Instruction::Rra => {},
        Instruction::Daa => {},
        Instruction::Cpl => {},
        Instruction::Scf => {},
        Instruction::Ccf => {},
        Instruction::Stop => {},
        Instruction::JumpRelative => {},
        Instruction::JumpRelativeIf(_) => {},
        Instruction::Load8(_, _) => {},
        Instruction::Halt => {},
        Instruction::Add(_) => {},
        Instruction::AddWithCarry(_) => {},
        Instruction::Jump => {},
        Instruction::AddImmediate => {},
        Instruction::SubtractImmediate => {},
        Instruction::StoreHighImmediate => {},
        Instruction::StoreHighC => {},
        Instruction::StoreAbsolute => {},
        Instruction::LoadHighC => {},
        Instruction::Unknown(_) => {},
    }
}

/// A step never changes whether interrupts are enabled, never drops a
/// notice, and changes the control state only through HALT and STOP.
pub proof fn lemma_step_control(s: Machine)
    ensures
        s.step().ime == s.ime,
        s.step().keeps_notices_of(s),
        s.next_byte() != 0x76 && s.next_byte() != 0x10 ==> s.step().state == s.state,
        s.next_byte() == 0x10 ==> s.step().state == ControlState::Stopped,
        s.next_byte() == 0x76 ==> s.step().state == (if s.ime || !s.interrupt_pending() {
            ControlState::Halted
        } else {
            s.state
        }),
{
    lemma_fetch(s);
    lemma_halt_and_stop(s.next_byte());
    lemma_perform_control(s.after_fetch(), spec_decode(s.next_byte()));
    lemma_perform_keeps_notices(s.after_fetch(), spec_decode(s.next_byte()));
}

/// Every instruction but a jump leaves PC right after its last operand
/// byte: its length does not depend on what it does.
pub proof fn lemma_instruction_length(s: Machine)
    requires
        !is_jump(spec_decode(s.next_byte())),
    ensures
        s.step().regs.pc == wrap16(s.regs.pc + 1 + operand_bytes(spec_decode(s.next_byte()))),
{
}

/// A conditional relative jump always consumes its displacement byte.
/// Where the condition does not hold, PC ends exactly two after the
/// opcode and no other register, and no memory, changes; where it
/// holds, the displacement counts from there.
pub proof fn lemma_conditional_jump(s: Machine, condition: Condition)
    requires
        spec_decode(s.next_byte()) == Instruction::JumpRelativeIf(condition),
    ensures
        !s.after_fetch().holds(condition) ==> s.step().regs == (Registers {
            pc: wrap16(s.regs.pc + 2),
            ..s.regs
        }),
        s.after_fetch().holds(condition) ==> s.step().regs == (Registers {
            pc: spec_jump_target(wrap16(s.regs.pc + 2), s.after_fetch().next_byte()),
            ..s.regs
        }),
        s.after_fetch().holds(condition) == s.holds(condition),
        s.step().mem == s.mem,
        s.step().state == s.state,
{
}

/// An opcode without a handler is skipped: PC moves past it, a notice
/// is left, and nothing else changes.
pub proof fn lemma_unknown_opcode(s: Machine)
    requires
        !known(s.next_byte()),
    ensures
        s.step() == s.after_fetch().noting(Notice::UnknownOpcode(s.next_byte())),
        s.step().regs == (Registers { pc: wrap16(s.regs.pc + 1), ..s.regs }),
        s.step().mem == s.mem,
        s.step().state == s.state,
{
}

/// A write over the bus to work RAM or to its mirror is read back
/// through the other, and leaves no notice.
pub proof fn lemma_write_through_mirror(s: Machine, k: u16, value: u8)
    requires
        k < 0x1E00,
    ensures
        s.after_write((0xC000 + k) as u16, value).peek((0xE000 + k) as u16) == value,
        s.after_write((0xE000 + k) as u16, value).peek((0xC000 + k) as u16) == value,
        s.after_write((0xC000 + k) as u16, value).notices == s.notices,
        s.after_write((0xE000 + k) as u16, value).notices == s.notices,
{
}

} // verus!
