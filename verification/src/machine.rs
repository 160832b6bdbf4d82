//! The mathematical model of the executor: what one instruction does to
//! the registers, the memory, the control state and the list of notices.

use vstd::prelude::*;
use crate::alu::{spec_add16, spec_add8, spec_ccf, spec_cpl, spec_daa, spec_dec, spec_high_byte,
    spec_inc, spec_jump_target, spec_low_byte, spec_rla, spec_rlca, spec_rra, spec_rrca, spec_scf,
    spec_sub8, spec_word, wrap16};
use crate::flags::{spec_carry, spec_zero};
use crate::instruction::{spec_decode, Condition, Instruction, Operand8, Pointer};
use crate::mmu::Memory;
use crate::registers::{Reg16, Registers};

verus! {

/// Whether the processor executes, waits for an interrupt, or is stopped.
#[derive(Clone, Copy, Debug, PartialEq, Eq, Structural)]
pub enum ControlState {
    Running,
    Halted,
    Stopped,
}

/// An anomaly that the executor reports and goes on after.
#[derive(Clone, Copy, Debug, PartialEq, Eq, Structural)]
pub enum Notice {
    /// A read of an address that reaches no storage; it returned 0xFF.
    UnmappedRead(u16),
    /// A write to an address that reaches no writable storage; it was dropped.
    UnmappedWrite(u16),
    /// An opcode byte without a handler; it was skipped.
    UnknownOpcode(u8),
}

/// The state of the executor.
#[verifier::ext_equal]
pub struct Machine {
    pub regs: Registers,
    pub mem: Memory,
    pub state: ControlState,
    /// Whether interrupts are globally enabled.
    pub ime: bool,
    /// The anomalies met so far, oldest first.
    pub notices: Seq<Notice>,
}

impl Machine {
    /// The state at start-up around the given memory.
    pub open spec fn power_on(mem: Memory) -> Machine {
        Machine {
            regs: Registers::power_on(),
            mem,
            state: ControlState::Running,
            ime: true,
            notices: Seq::empty(),
        }
    }

    /// The RAM regions have their size and the lower nibble of F is zero.
    pub open spec fn wf(self) -> bool {
        self.mem.wf() && self.regs.well_formed()
    }

    /// This state with other registers.
    pub open spec fn with_regs(self, regs: Registers) -> Machine {
        Machine { regs, ..self }
    }

    /// This state with another accumulator.
    pub open spec fn with_a(self, a: u8) -> Machine {
        self.with_regs(Registers { a, ..self.regs })
    }

    /// This state with another accumulator and other flags.
    pub open spec fn with_af(self, a: u8, f: u8) -> Machine {
        self.with_regs(Registers { a, f, ..self.regs })
    }

    /// This state with other flags.
    pub open spec fn with_f(self, f: u8) -> Machine {
        self.with_regs(Registers { f, ..self.regs })
    }

    /// This state with another program counter.
    pub open spec fn with_pc(self, pc: u16) -> Machine {
        self.with_regs(Registers { pc, ..self.regs })
    }

    /// This state with another control state.
    pub open spec fn with_state(self, state: ControlState) -> Machine {
        Machine { state, ..self }
    }

    /// This state with one more notice.
    pub open spec fn noting(self, notice: Notice) -> Machine {
        Machine { notices: self.notices.push(notice), ..self }
    }

    /// Every notice of `before` is still there, at its place.
    pub open spec fn keeps_notices_of(self, before: Machine) -> bool {
        &&& before.notices.len() <= self.notices.len()
        &&& forall|i: int| 0 <= i < before.notices.len() ==> self.notices[i] == before.notices[i]
    }

    /// The byte that a read of `addr` returns.
    pub open spec fn peek(self, addr: u16) -> u8 {
        self.mem.read(addr)
    }

    /// The state after a read of `addr`: a read that reaches no storage
    /// leaves a notice, any other read leaves no trace.
    pub open spec fn after_read(self, addr: u16) -> Machine {
        Machine {
            notices: if self.mem.readable(addr) {
                self.notices
            } else {
                self.notices.push(Notice::UnmappedRead(addr))
            },
            ..self
        }
    }

    /// The state after a write of `value` to `addr`: the memory takes the
    /// value, or the write is dropped and leaves a notice.
    pub open spec fn after_write(self, addr: u16, value: u8) -> Machine {
        Machine {
            mem: self.mem.write(addr, value),
            notices: if Memory::writable(addr) {
                self.notices
            } else {
                self.notices.push(Notice::UnmappedWrite(addr))
            },
            ..self
        }
    }

    /// The byte at the program counter.
    pub open spec fn next_byte(self) -> u8 {
        self.peek(self.regs.pc)
    }

    /// The state after the byte at the program counter was fetched: the
    /// counter is one further, modulo 2^16.
    pub open spec fn after_fetch(self) -> Machine {
        self.after_read(self.regs.pc).with_pc(wrap16(self.regs.pc + 1))
    }

    /// The little-endian word at the program counter.
    pub open spec fn next_word(self) -> u16 {
        spec_word(self.after_fetch().next_byte(), self.next_byte())
    }

    /// The state after the word at the program counter was fetched.
    pub open spec fn after_fetch_word(self) -> Machine {
        self.after_fetch().after_fetch()
    }

    /// The value of an 8-bit operand.
    pub open spec fn operand(self, loc: Operand8) -> u8 {
        match loc {
            Operand8::A => self.regs.a,
            Operand8::B => self.regs.b,
            Operand8::C => self.regs.c,
            Operand8::D => self.regs.d,
            Operand8::E => self.regs.e,
            Operand8::H => self.regs.h,
            Operand8::L => self.regs.l,
            Operand8::HlIndirect => self.peek(self.regs.spec_hl()),
        }
    }

    /// The state after an 8-bit operand was read.
    pub open spec fn after_operand_read(self, loc: Operand8) -> Machine {
        match loc {
            Operand8::HlIndirect => self.after_read(self.regs.spec_hl()),
            _ => self,
        }
    }

    /// The state after `value` was written to an 8-bit operand.
    pub open spec fn after_operand_write(self, loc: Operand8, value: u8) -> Machine {
        match loc {
            Operand8::A => self.with_regs(Registers { a: value, ..self.regs }),
            Operand8::B => self.with_regs(Registers { b: value, ..self.regs }),
            Operand8::C => self.with_regs(Registers { c: value, ..self.regs }),
            Operand8::D => self.with_regs(Registers { d: value, ..self.regs }),
            Operand8::E => self.with_regs(Registers { e: value, ..self.regs }),
            Operand8::H => self.with_regs(Registers { h: value, ..self.regs }),
            Operand8::L => self.with_regs(Registers { l: value, ..self.regs }),
            Operand8::HlIndirect => self.after_write(self.regs.spec_hl(), value),
        }
    }

    /// The address that an address register holds.
    pub open spec fn pointer(self, p: Pointer) -> u16 {
        match p {
            Pointer::BC => self.regs.spec_bc(),
            Pointer::DE => self.regs.spec_de(),
            Pointer::HlIncrement => self.regs.spec_hl(),
            Pointer::HlDecrement => self.regs.spec_hl(),
        }
    }

    /// The state after an access through an address register: HL moves
    /// by one where the instruction says so.
    pub open spec fn after_pointer(self, p: Pointer) -> Machine {
        match p {
            Pointer::BC => self,
            Pointer::DE => self,
            Pointer::HlIncrement => self.with_regs(
                self.regs.with_hl(wrap16(self.regs.spec_hl() + 1)),
            ),
            Pointer::HlDecrement => self.with_regs(
                self.regs.with_hl(wrap16(self.regs.spec_hl() - 1)),
            ),
        }
    }

    /// Whether a jump condition holds.
    pub open spec fn holds(self, condition: Condition) -> bool {
        match condition {
            Condition::NZ => !spec_zero(self.regs.f),
            Condition::Z => spec_zero(self.regs.f),
            Condition::NC => !spec_carry(self.regs.f),
            Condition::C => spec_carry(self.regs.f),
        }
    }

    /// Whether an interrupt is both enabled and flagged.
    pub open spec fn interrupt_pending(self) -> bool {
        self.mem.ie & self.mem.iflag != 0
    }

    /// LD [p], A
    pub open spec fn store_accumulator(self, p: Pointer) -> Machine {
        self.after_write(self.pointer(p), self.regs.a).after_pointer(p)
    }

    /// LD A, [p]
    pub open spec fn load_accumulator(self, p: Pointer) -> Machine {
        self.after_read(self.pointer(p)).with_a(self.peek(self.pointer(p))).after_pointer(p)
    }

    /// LD [n16], SP: the low half goes to the address, the high half to
    /// the address after it.
    pub open spec fn store_stack_pointer(self) -> Machine {
        let addr = self.next_word();
        self.after_fetch_word().after_write(addr, spec_low_byte(self.regs.sp)).after_write(
            wrap16(addr + 1),
            spec_high_byte(self.regs.sp),
        )
    }

    /// INC r16: no flag changes.
    pub open spec fn increment16(self, r: Reg16) -> Machine {
        self.with_regs(self.regs.with16(r, wrap16(self.regs.spec_get16(r) + 1)))
    }

    /// DEC r16: no flag changes.
    pub open spec fn decrement16(self, r: Reg16) -> Machine {
        self.with_regs(self.regs.with16(r, wrap16(self.regs.spec_get16(r) - 1)))
    }

    /// ADD HL, r16
    pub open spec fn add_hl(self, r: Reg16) -> Machine {
        let sum = spec_add16(self.regs.spec_hl(), self.regs.spec_get16(r), self.regs.f);
        self.with_regs(Registers { f: sum.flags, ..self.regs.with_hl(sum.value) })
    }

    /// INC on an 8-bit operand
    pub open spec fn increment8(self, loc: Operand8) -> Machine {
        let r = spec_inc(self.operand(loc), self.regs.f);
        self.after_operand_read(loc).with_f(r.flags).after_operand_write(loc, r.value)
    }

    /// DEC on an 8-bit operand
    pub open spec fn decrement8(self, loc: Operand8) -> Machine {
        let r = spec_dec(self.operand(loc), self.regs.f);
        self.after_operand_read(loc).with_f(r.flags).after_operand_write(loc, r.value)
    }

    /// ADD A, value
    pub open spec fn add_to_a(self, value: u8) -> Machine {
        let r = spec_add8(self.regs.a, value, false);
        self.with_af(r.value, r.flags)
    }

    /// ADC A, value
    pub open spec fn add_with_carry_to_a(self, value: u8) -> Machine {
        let r = spec_add8(self.regs.a, value, spec_carry(self.regs.f));
        self.with_af(r.value, r.flags)
    }

    /// SUB A, value
    pub open spec fn subtract_from_a(self, value: u8) -> Machine {
        let r = spec_sub8(self.regs.a, value);
        self.with_af(r.value, r.flags)
    }

    /// LD on an 8-bit operand from the byte after the opcode
    pub open spec fn load_immediate8(self, loc: Operand8) -> Machine {
        self.after_fetch().after_operand_write(loc, self.next_byte())
    }

    /// LD r16, n16
    pub open spec fn load_immediate16(self, r: Reg16) -> Machine {
        let after = self.after_fetch_word();
        after.with_regs(after.regs.with16(r, self.next_word()))
    }

    /// JR e8: the displacement counts from the address after it.
    pub open spec fn jump_relative(self) -> Machine {
        let after = self.after_fetch();
        after.with_pc(spec_jump_target(after.regs.pc, self.next_byte()))
    }

    /// JR cc, e8: the displacement byte is fetched either way, and
    /// applied only where the condition holds.
    pub open spec fn jump_relative_if(self, condition: Condition) -> Machine {
        if self.holds(condition) {
            self.jump_relative()
        } else {
            self.after_fetch()
        }
    }

    /// JP n16
    pub open spec fn jump(self) -> Machine {
        self.after_fetch_word().with_pc(self.next_word())
    }

    /// LD between 8-bit operands
    pub open spec fn load8(self, dst: Operand8, src: Operand8) -> Machine {
        self.after_operand_read(src).after_operand_write(dst, self.operand(src))
    }

    /// HALT: with interrupts enabled, or with none pending, the
    /// processor halts; with interrupts disabled and one pending, it
    /// stays as it is.
    pub open spec fn halt(self) -> Machine {
        if self.ime || !self.interrupt_pending() {
            self.with_state(ControlState::Halted)
        } else {
            self
        }
    }

    /// STOP
    pub open spec fn stop(self) -> Machine {
        self.with_state(ControlState::Stopped)
    }

    /// The interrupt signal from outside: the processor runs again.
    pub open spec fn wake(self) -> Machine {
        self.with_state(ControlState::Running)
    }

    /// The address 0xFF00 + n in the page below high RAM.
    pub open spec fn high_page(n: u8) -> u16 {
        (0xFF00 + n) as u16
    }

    /// What an instruction does, the opcode byte already fetched.
    pub open spec fn perform(self, instruction: Instruction) -> Machine {
        match instruction {
            Instruction::Nop => self,
            Instruction::LoadImmediate16(r) => self.load_immediate16(r),
            Instruction::StoreAccumulator(p) => self.store_accumulator(p),
            Instruction::LoadAccumulator(p) => self.load_accumulator(p),
            Instruction::StoreStackPointer => self.store_stack_pointer(),
            Instruction::Increment16(r) => self.increment16(r),
            Instruction::Decrement16(r) => self.decrement16(r),
            Instruction::AddHl(r) => self.add_hl(r),
            Instruction::Increment8(loc) => self.increment8(loc),
            Instruction::Decrement8(loc) => self.decrement8(loc),
            Instruction::LoadImmediate8(loc) => self.load_immediate8(loc),
            Instruction::Rlca => self.with_af(
                spec_rlca(self.regs.a).value,
                spec_rlca(self.regs.a).flags,
            ),
            Instruction::Rrca => self.with_af(
                spec_rrca(self.regs.a).value,
                spec_rrca(self.regs.a).flags,
            ),
            Instruction::Rla => self.with_af(
                spec_rla(self.regs.a, self.regs.f).value,
                spec_rla(self.regs.a, self.regs.f).flags,
            ),
            Instruction::Rra => self.with_af(
                spec_rra(self.regs.a, self.regs.f).value,
                spec_rra(self.regs.a, self.regs.f).flags,
            ),
            Instruction::Daa => self.with_af(
                spec_daa(self.regs.a, self.regs.f).value,
                spec_daa(self.regs.a, self.regs.f).flags,
            ),
            Instruction::Cpl => self.with_af(
                spec_cpl(self.regs.a, self.regs.f).value,
                spec_cpl(self.regs.a, self.regs.f).flags,
            ),
            Instruction::Scf => self.with_f(spec_scf(self.regs.f)),
            Instruction::Ccf => self.with_f(spec_ccf(self.regs.f)),
            Instruction::Stop => self.stop(),
            Instruction::JumpRelative => self.jump_relative(),
            Instruction::JumpRelativeIf(condition) => self.jump_relative_if(condition),
            Instruction::Load8(dst, src) => self.load8(dst, src),
            Instruction::Halt => self.halt(),
            Instruction::Add(loc) => self.after_operand_read(loc).add_to_a(self.operand(loc)),
            Instruction::AddWithCarry(loc) => self.after_operand_read(loc).add_with_carry_to_a(
                self.operand(loc),
            ),
            Instruction::Jump => self.jump(),
            Instruction::AddImmediate => self.after_fetch().add_to_a(self.next_byte()),
            Instruction::SubtractImmediate => self.after_fetch().subtract_from_a(self.next_byte()),
            Instruction::StoreHighImmediate => self.after_fetch().after_write(
                Self::high_page(self.next_byte()),
                self.regs.a,
            ),
            Instruction::StoreHighC => self.after_write(Self::high_page(self.regs.c), self.regs.a),
            Instruction::StoreAbsolute => self.after_fetch_word().after_write(
                self.next_word(),
                self.regs.a,
            ),
            Instruction::LoadHighC => self.after_read(Self::high_page(self.regs.c)).with_a(
                self.peek(Self::high_page(self.regs.c)),
            ),
            Instruction::Unknown(opcode) => self.noting(Notice::UnknownOpcode(opcode)),
        }
    }

    /// What the instruction with the given opcode does, the opcode byte
    /// already fetched.
    pub open spec fn execute(self, opcode: u8) -> Machine {
        self.perform(spec_decode(opcode))
    }

    /// One step: the opcode at the program counter is fetched and its
    /// instruction executed, whatever the control state.
    pub open spec fn step(self) -> Machine {
        self.after_fetch().execute(self.next_byte())
    }
}

} // verus!
