//! The instruction executor. It owns the registers and the memory unit,
//! and advances by one instruction per call of `step`.

use vstd::prelude::*;
use crate::alu::{add16, add8, ccf, cpl, daa, dec, high_byte, inc, jump_target, low_byte, rla,
    rlca, rra, rrca, scf, spec_word, sub8, word, wrap16};
use crate::flags::{carry, zero};
use crate::instruction::{decode, spec_decode, Condition, Instruction, Operand8, Pointer};
use crate::machine::{ControlState, Machine, Notice};
use crate::mmu::MMU;
use crate::registers::{Reg16, Registers};

verus! {

/// The processor.
pub struct CPU {
    pub regs: Registers,
    pub mmu: MMU,
    /// Whether the processor runs, is halted or is stopped. `step` does
    /// not look at it: the driver does.
    pub state: ControlState,
    /// Whether interrupts are globally enabled.
    pub ime: bool,
    /// The anomalies met since the driver last took them, oldest first.
    pub notices: Vec<Notice>,
}

impl View for CPU {
    type V = Machine;

    open spec fn view(&self) -> Machine {
        Machine {
            regs: self.regs,
            mem: self.mmu@,
            state: self.state,
            ime: self.ime,
            notices: self.notices@,
        }
    }
}

impl CPU {
    /// A processor in its state after boot, around the given memory unit.
    pub fn new(mmu: MMU) -> (cpu: Self)
        ensures
            cpu@ == Machine::power_on(mmu@),
    {
        Self {
            regs: Registers::new(),
            mmu,
            state: ControlState::Running,
            ime: true,
            notices: Vec::new(),
        }
    }

    /// Executes one instruction: fetches the opcode at PC and performs
    /// what it stands for, operand bytes included.
    pub fn step(&mut self)
        ensures
            final(self)@ == old(self)@.step(),
    {
        let opcode = self.fetch();
        self.execute(opcode);
    }

    /// The instruction that the next step will execute.
    pub fn next_instruction(&self) -> (instruction: Instruction)
        ensures
            instruction == spec_decode(self@.next_byte()),
    {
        decode(self.mmu.read_byte(self.regs.pc))
    }

    /// Hands out the notices gathered so far and starts a new list.
    pub fn take_notices(&mut self) -> (taken: Vec<Notice>)
        ensures
            taken@ == old(self).notices@,
            final(self)@ == (Machine { notices: Seq::empty(), ..old(self)@ }),
    {
        let mut taken: Vec<Notice> = Vec::new();
        core::mem::swap(&mut self.notices, &mut taken);
        taken
    }

    /// Reads a byte over the bus, noting a read that reaches no storage.
    pub fn load(&mut self, addr: u16) -> (value: u8)
        ensures
            value == old(self)@.peek(addr),
            final(self)@ == old(self)@.after_read(addr),
    {
        if !self.mmu.is_readable(addr) {
            self.notices.push(Notice::UnmappedRead(addr));
        }
        self.mmu.read_byte(addr)
    }

    /// Writes a byte over the bus, noting a write that is dropped.
    pub fn store(&mut self, addr: u16, value: u8)
        ensures
            final(self)@ == old(self)@.after_write(addr, value),
    {
        if self.mmu.is_writable(addr) {
            self.mmu.write_byte(addr, value);
        } else {
            self.notices.push(Notice::UnmappedWrite(addr));
        }
    }

    /// Reads the byte at PC and advances PC by one.
    pub fn fetch(&mut self) -> (value: u8)
        ensures
            value == old(self)@.next_byte(),
            final(self)@ == old(self)@.after_fetch(),
    {
        let value = self.load(self.regs.pc);
        self.regs.pc = self.regs.pc.wrapping_add(1);
        value
    }

    /// Reads the little-endian word at PC and advances PC by two.
    pub fn fetch_word(&mut self) -> (value: u16)
        ensures
            value == old(self)@.next_word(),
            final(self)@ == old(self)@.after_fetch_word(),
    {
        let low = self.fetch();
        let high = self.fetch();
        word(high, low)
    }

    /// Reads an 8-bit operand.
    pub fn read_operand(&mut self, loc: Operand8) -> (value: u8)
        ensures
            value == old(self)@.operand(loc),
            final(self)@ == old(self)@.after_operand_read(loc),
    {
        match loc {
            Operand8::A => self.regs.a,
            Operand8::B => self.regs.b,
            Operand8::C => self.regs.c,
            Operand8::D => self.regs.d,
            Operand8::E => self.regs.e,
            Operand8::H => self.regs.h,
            Operand8::L => self.regs.l,
            Operand8::HlIndirect => {
                let addr = self.regs.hl();
                self.load(addr)
            },
        }
    }

    /// Writes an 8-bit operand.
    pub fn write_operand(&mut self, loc: Operand8, value: u8)
        ensures
            final(self)@ == old(self)@.after_operand_write(loc, value),
    {
        match loc {
            Operand8::A => {
                self.regs.a = value;
            },
            Operand8::B => {
                self.regs.b = value;
            },
            Operand8::C => {
                self.regs.c = value;
            },
            Operand8::D => {
                self.regs.d = value;
            },
            Operand8::E => {
                self.regs.e = value;
            },
            Operand8::H => {
                self.regs.h = value;
            },
            Operand8::L => {
                self.regs.l = value;
            },
            Operand8::HlIndirect => {
                let addr = self.regs.hl();
                self.store(addr, value);
            },
        }
    }

    /// Stores A at the address made of the two given halves.
    pub fn ld_r16mem(&mut self, r16_high: u8, r16_low: u8)
        ensures
            final(self)@ == old(self)@.after_write(spec_word(r16_high, r16_low), old(self).regs.a),
    {
        let addr = word(r16_high, r16_low);
        self.store(addr, self.regs.a);
    }

    /// Loads A from the address made of the two given halves.
    pub fn ld_a_r16mem(&mut self, r16_high: u8, r16_low: u8)
        ensures
            final(self)@ == old(self)@.after_read(spec_word(r16_high, r16_low)).with_a(
                old(self)@.peek(spec_word(r16_high, r16_low)),
            ),
    {
        let addr = word(r16_high, r16_low);
        let value = self.load(addr);
        self.regs.a = value;
    }

    /// The word made of the two halves, plus one, modulo 2^16.
    pub fn get_inc_r16_value(&self, r16_high: u8, r16_low: u8) -> (value: u16)
        ensures
            value == wrap16(spec_word(r16_high, r16_low) + 1),
    {
        word(r16_high, r16_low).wrapping_add(1)
    }

    /// The word made of the two halves, minus one, modulo 2^16.
    pub fn get_dec_r16_value(&self, r16_high: u8, r16_low: u8) -> (value: u16)
        ensures
            value == wrap16(spec_word(r16_high, r16_low) - 1),
    {
        word(r16_high, r16_low).wrapping_sub(1)
    }

    /// Moves HL by one after an access through it, where the address
    /// register asks for it.
    pub fn adjust_pointer(&mut self, p: Pointer)
        ensures
            final(self)@ == old(self)@.after_pointer(p),
    {
        match p {
            Pointer::BC => {},
            Pointer::DE => {},
            Pointer::HlIncrement => {
                let value = self.get_inc_r16_value(self.regs.h, self.regs.l);
                self.regs.set_hl(value);
            },
            Pointer::HlDecrement => {
                let value = self.get_dec_r16_value(self.regs.h, self.regs.l);
                self.regs.set_hl(value);
            },
        }
    }

    /// LD [BC], A; LD [DE], A; LD [HL+], A; LD [HL-], A
    pub fn ld_mem_a(&mut self, p: Pointer)
        ensures
            final(self)@ == old(self)@.store_accumulator(p),
    {
        match p {
            Pointer::BC => self.ld_r16mem(self.regs.b, self.regs.c),
            Pointer::DE => self.ld_r16mem(self.regs.d, self.regs.e),
            Pointer::HlIncrement => self.ld_r16mem(self.regs.h, self.regs.l),
            Pointer::HlDecrement => self.ld_r16mem(self.regs.h, self.regs.l),
        }
        self.adjust_pointer(p);
    }

    /// LD A, [BC]; LD A, [DE]; LD A, [HL+]; LD A, [HL-]
    pub fn ld_a_mem(&mut self, p: Pointer)
        ensures
            final(self)@ == old(self)@.load_accumulator(p),
    {
        match p {
            Pointer::BC => self.ld_a_r16mem(self.regs.b, self.regs.c),
            Pointer::DE => self.ld_a_r16mem(self.regs.d, self.regs.e),
            Pointer::HlIncrement => self.ld_a_r16mem(self.regs.h, self.regs.l),
            Pointer::HlDecrement => self.ld_a_r16mem(self.regs.h, self.regs.l),
        }
        self.adjust_pointer(p);
    }

    /// LD [n16], SP
    pub fn ld_mem_sp(&mut self)
        ensures
            final(self)@ == old(self)@.store_stack_pointer(),
    {
        let addr = self.fetch_word();
        let sp = self.regs.sp;
        self.store(addr, low_byte(sp));
        self.store(addr.wrapping_add(1), high_byte(sp));
    }

    /// INC r16
    pub fn inc_r16(&mut self, r: Reg16)
        ensures
            final(self)@ == old(self)@.increment16(r),
    {
        let value = match r {
            Reg16::BC => self.get_inc_r16_value(self.regs.b, self.regs.c),
            Reg16::DE => self.get_inc_r16_value(self.regs.d, self.regs.e),
            Reg16::HL => self.get_inc_r16_value(self.regs.h, self.regs.l),
            Reg16::SP => self.regs.sp.wrapping_add(1),
        };
        self.regs.set16(r, value);
    }

    /// DEC r16
    pub fn dec_r16(&mut self, r: Reg16)
        ensures
            final(self)@ == old(self)@.decrement16(r),
    {
        let value = match r {
            Reg16::BC => self.get_dec_r16_value(self.regs.b, self.regs.c),
            Reg16::DE => self.get_dec_r16_value(self.regs.d, self.regs.e),
            Reg16::HL => self.get_dec_r16_value(self.regs.h, self.regs.l),
            Reg16::SP => self.regs.sp.wrapping_sub(1),
        };
        self.regs.set16(r, value);
    }

    /// ADD HL, r16
    pub fn add_hl_r16(&mut self, r: Reg16)
        ensures
            final(self)@ == old(self)@.add_hl(r),
    {
        let sum = add16(self.regs.hl(), self.regs.get16(r), self.regs.f);
        self.regs.set_hl(sum.value);
        self.regs.f = sum.flags;
    }

    /// INC r8; INC [HL]
    pub fn inc_r8(&mut self, loc: Operand8)
        ensures
            final(self)@ == old(self)@.increment8(loc),
    {
        let value = self.read_operand(loc);
        let r = inc(value, self.regs.f);
        self.regs.f = r.flags;
        self.write_operand(loc, r.value);
    }

    /// DEC r8; DEC [HL]
    pub fn dec_r8(&mut self, loc: Operand8)
        ensures
            final(self)@ == old(self)@.decrement8(loc),
    {
        let value = self.read_operand(loc);
        let r = dec(value, self.regs.f);
        self.regs.f = r.flags;
        self.write_operand(loc, r.value);
    }

    /// ADD A, value
    pub fn add_a(&mut self, r8_value: u8)
        ensures
            final(self)@ == old(self)@.add_to_a(r8_value),
    {
        let r = add8(self.regs.a, r8_value, false);
        self.regs.a = r.value;
        self.regs.f = r.flags;
    }

    /// ADC A, value
    pub fn adc_a(&mut self, r8_value: u8)
        ensures
            final(self)@ == old(self)@.add_with_carry_to_a(r8_value),
    {
        let r = add8(self.regs.a, r8_value, carry(self.regs.f));
        self.regs.a = r.value;
        self.regs.f = r.flags;
    }

    /// SUB A, value
    pub fn sub_a(&mut self, r8_value: u8)
        ensures
            final(self)@ == old(self)@.subtract_from_a(r8_value),
    {
        let r = sub8(self.regs.a, r8_value);
        self.regs.a = r.value;
        self.regs.f = r.flags;
    }

    /// LD r8, n8; LD [HL], n8
    pub fn ld_r8_n8(&mut self, loc: Operand8)
        ensures
            final(self)@ == old(self)@.load_immediate8(loc),
    {
        let value = self.fetch();
        self.write_operand(loc, value);
    }

    /// LD r16, n16
    pub fn ld_r16_n16(&mut self, r: Reg16)
        ensures
            final(self)@ == old(self)@.load_immediate16(r),
    {
        let value = self.fetch_word();
        self.regs.set16(r, value);
    }

    /// RLCA
    pub fn rlca(&mut self)
        ensures
            final(self)@ == old(self)@.perform(Instruction::Rlca),
    {
        let r = rlca(self.regs.a);
        self.regs.a = r.value;
        self.regs.f = r.flags;
    }

    /// RRCA
    pub fn rrca(&mut self)
        ensures
            final(self)@ == old(self)@.perform(Instruction::Rrca),
    {
        let r = rrca(self.regs.a);
        self.regs.a = r.value;
        self.regs.f = r.flags;
    }

    /// RLA
    pub fn rla(&mut self)
        ensures
            final(self)@ == old(self)@.perform(Instruction::Rla),
    {
        let r = rla(self.regs.a, self.regs.f);
        self.regs.a = r.value;
        self.regs.f = r.flags;
    }

    /// RRA
    pub fn rra(&mut self)
        ensures
            final(self)@ == old(self)@.perform(Instruction::Rra),
    {
        let r = rra(self.regs.a, self.regs.f);
        self.regs.a = r.value;
        self.regs.f = r.flags;
    }

    /// DAA
    pub fn daa(&mut self)
        ensures
            final(self)@ == old(self)@.perform(Instruction::Daa),
    {
        let r = daa(self.regs.a, self.regs.f);
        self.regs.a = r.value;
        self.regs.f = r.flags;
    }

    /// CPL
    pub fn cpl(&mut self)
        ensures
            final(self)@ == old(self)@.perform(Instruction::Cpl),
    {
        let r = cpl(self.regs.a, self.regs.f);
        self.regs.a = r.value;
        self.regs.f = r.flags;
    }

    /// SCF
    pub fn scf(&mut self)
        ensures
            final(self)@ == old(self)@.perform(Instruction::Scf),
    {
        self.regs.f = scf(self.regs.f);
    }

    /// CCF
    pub fn ccf(&mut self)
        ensures
            final(self)@ == old(self)@.perform(Instruction::Ccf),
    {
        self.regs.f = ccf(self.regs.f);
    }

    /// JR e8
    pub fn jr_e8(&mut self)
        ensures
            final(self)@ == old(self)@.jump_relative(),
    {
        let offset = self.fetch();
        self.regs.pc = jump_target(self.regs.pc, offset);
    }

    /// Whether a jump condition holds of the current flags.
    pub fn condition_holds(&self, condition: Condition) -> (yes: bool)
        ensures
            yes == self@.holds(condition),
    {
        match condition {
            Condition::NZ => !zero(self.regs.f),
            Condition::Z => zero(self.regs.f),
            Condition::NC => !carry(self.regs.f),
            Condition::C => carry(self.regs.f),
        }
    }

    /// JR cc, e8
    pub fn jr_cond_e8(&mut self, condition: Condition)
        ensures
            final(self)@ == old(self)@.jump_relative_if(condition),
    {
        let offset = self.fetch();
        if self.condition_holds(condition) {
            self.regs.pc = jump_target(self.regs.pc, offset);
        }
    }

    /// JP n16
    pub fn jp_n16(&mut self)
        ensures
            final(self)@ == old(self)@.jump(),
    {
        let target = self.fetch_word();
        self.regs.pc = target;
    }

    /// STOP
    pub fn stop(&mut self)
        ensures
            final(self)@ == old(self)@.stop(),
    {
        self.state = ControlState::Stopped;
    }

    /// The interrupt signal from outside: a halted or stopped processor
    /// runs again.
    pub fn handle_interrupts(&mut self)
        ensures
            final(self)@ == old(self)@.wake(),
    {
        self.state = ControlState::Running;
    }

    /// LD r8, r8; LD r8, [HL]; LD [HL], r8
    pub fn ld_r8_r8(&mut self, dst_reg: Operand8, src_reg: Operand8)
        ensures
            final(self)@ == old(self)@.load8(dst_reg, src_reg),
    {
        let value = self.read_operand(src_reg);
        self.write_operand(dst_reg, value);
    }

    /// HALT
    pub fn halt(&mut self)
        ensures
            final(self)@ == old(self)@.halt(),
    {
        if self.ime {
            self.state = ControlState::Halted;
        } else {
            let interrupt_enable = self.mmu.read_byte(0xFFFF);
            let interrupt_flag = self.mmu.read_byte(0xFF0F);
            if interrupt_enable & interrupt_flag == 0 {
                self.state = ControlState::Halted;
            }
        }
    }

    /// LDH [n8], A
    pub fn ldh_n8_a(&mut self)
        ensures
            final(self)@ == old(self)@.perform(Instruction::StoreHighImmediate),
    {
        let offset = self.fetch();
        self.store(word(0xFF, offset), self.regs.a);
    }

    /// LDH [C], A
    pub fn ldh_c_a(&mut self)
        ensures
            final(self)@ == old(self)@.perform(Instruction::StoreHighC),
    {
        self.store(word(0xFF, self.regs.c), self.regs.a);
    }

    /// LD [n16], A
    pub fn ld_n16_a(&mut self)
        ensures
            final(self)@ == old(self)@.perform(Instruction::StoreAbsolute),
    {
        let addr = self.fetch_word();
        self.store(addr, self.regs.a);
    }

    /// LDH A, [C]
    pub fn ldh_a_c(&mut self)
        ensures
            final(self)@ == old(self)@.perform(Instruction::LoadHighC),
    {
        let value = self.load(word(0xFF, self.regs.c));
        self.regs.a = value;
    }

    /// Performs the instruction that `opcode` stands for, the opcode byte
    /// already fetched. A byte without a handler leaves a notice and
    /// changes nothing else.
    pub fn execute(&mut self, opcode: u8)
        ensures
            final(self)@ == old(self)@.execute(opcode),
    {
        match decode(opcode) {
            Instruction::Nop => {},
            Instruction::LoadImmediate16(r) => self.ld_r16_n16(r),
            Instruction::StoreAccumulator(p) => self.ld_mem_a(p),
            Instruction::LoadAccumulator(p) => self.ld_a_mem(p),
            Instruction::StoreStackPointer => self.ld_mem_sp(),
            Instruction::Increment16(r) => self.inc_r16(r),
            Instruction::Decrement16(r) => self.dec_r16(r),
            Instruction::AddHl(r) => self.add_hl_r16(r),
            Instruction::Increment8(loc) => self.inc_r8(loc),
            Instruction::Decrement8(loc) => self.dec_r8(loc),
            Instruction::LoadImmediate8(loc) => self.ld_r8_n8(loc),
            Instruction::Rlca => self.rlca(),
            Instruction::Rrca => self.rrca(),
            Instruction::Rla => self.rla(),
            Instruction::Rra => self.rra(),
            Instruction::Daa => self.daa(),
            Instruction::Cpl => self.cpl(),
            Instruction::Scf => self.scf(),
            Instruction::Ccf => self.ccf(),
            Instruction::Stop => self.stop(),
            Instruction::JumpRelative => self.jr_e8(),
            Instruction::JumpRelativeIf(condition) => self.jr_cond_e8(condition),
            Instruction::Load8(dst, src) => self.ld_r8_r8(dst, src),
            Instruction::Halt => self.halt(),
            Instruction::Add(loc) => {
                let value = self.read_operand(loc);
                self.add_a(value);
            },
            Instruction::AddWithCarry(loc) => {
                let value = self.read_operand(loc);
                self.adc_a(value);
            },
            Instruction::Jump => self.jp_n16(),
            Instruction::AddImmediate => {
                let value = self.fetch();
                self.add_a(value);
            },
            Instruction::SubtractImmediate => {
                let value = self.fetch();
                self.sub_a(value);
            },
            Instruction::StoreHighImmediate => self.ldh_n8_a(),
            Instruction::StoreHighC => self.ldh_c_a(),
            Instruction::StoreAbsolute => self.ld_n16_a(),
            Instruction::LoadHighC => self.ldh_a_c(),
            Instruction::Unknown(byte) => {
                self.notices.push(Notice::UnknownOpcode(byte));
            },
        }
    }
}

} // verus!
