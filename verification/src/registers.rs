//! The register file: eight 8-bit cells, the stack pointer and the program
//! counter. BC, DE and HL are views of two cells each, with no storage of
//! their own.

use vstd::prelude::*;
use crate::alu::{high_byte, low_byte, spec_high_byte, spec_low_byte, spec_word, word};
use crate::flags::well_formed;

verus! {

/// The processor's registers.
#[derive(Clone, Copy, Debug, PartialEq, Eq, Structural)]
pub struct Registers {
    /// Accumulator.
    pub a: u8,
    /// Flags: Z, N, H, C in bits 7 to 4.
    pub f: u8,
    pub b: u8,
    pub c: u8,
    pub d: u8,
    pub e: u8,
    pub h: u8,
    pub l: u8,
    /// Stack pointer.
    pub sp: u16,
    /// Program counter.
    pub pc: u16,
}

/// A 16-bit register: one of the three pairs, or the stack pointer.
#[derive(Clone, Copy, Debug, PartialEq, Eq, Structural)]
pub enum Reg16 {
    BC,
    DE,
    HL,
    SP,
}

impl Registers {
    /// The register values right after the boot sequence.
    pub open spec fn power_on() -> Registers {
        Registers {
            a: 0x01,
            f: 0xB0,
            b: 0x00,
            c: 0x13,
            d: 0x00,
            e: 0xD8,
            h: 0x01,
            l: 0x4D,
            sp: 0xFFFE,
            pc: 0x0100,
        }
    }

    /// The lower nibble of F is zero.
    pub open spec fn well_formed(self) -> bool {
        well_formed(self.f)
    }

    /// BC as one word: B is the high half.
    pub open spec fn spec_bc(&self) -> u16 {
        spec_word(self.b, self.c)
    }

    /// DE as one word: D is the high half.
    pub open spec fn spec_de(&self) -> u16 {
        spec_word(self.d, self.e)
    }

    /// HL as one word: H is the high half.
    pub open spec fn spec_hl(&self) -> u16 {
        spec_word(self.h, self.l)
    }

    /// These registers with `value` split over B and C.
    pub open spec fn with_bc(self, value: u16) -> Registers {
        Registers { b: spec_high_byte(value), c: spec_low_byte(value), ..self }
    }

    /// These registers with `value` split over D and E.
    pub open spec fn with_de(self, value: u16) -> Registers {
        Registers { d: spec_high_byte(value), e: spec_low_byte(value), ..self }
    }

    /// These registers with `value` split over H and L.
    pub open spec fn with_hl(self, value: u16) -> Registers {
        Registers { h: spec_high_byte(value), l: spec_low_byte(value), ..self }
    }

    /// The value of a 16-bit register.
    pub open spec fn spec_get16(&self, r: Reg16) -> u16 {
        match r {
            Reg16::BC => self.spec_bc(),
            Reg16::DE => self.spec_de(),
            Reg16::HL => self.spec_hl(),
            Reg16::SP => self.sp,
        }
    }

    /// These registers with `value` in the 16-bit register `r`.
    pub open spec fn with16(self, r: Reg16, value: u16) -> Registers {
        match r {
            Reg16::BC => self.with_bc(value),
            Reg16::DE => self.with_de(value),
            Reg16::HL => self.with_hl(value),
            Reg16::SP => Registers { sp: value, ..self },
        }
    }

    /// The registers in their state after boot.
    pub fn new() -> (regs: Self)
        ensures
            regs == Registers::power_on(),
    {
        Self {
            a: 0x01,
            f: 0xB0,
            b: 0x00,
            c: 0x13,
            d: 0x00,
            e: 0xD8,
            h: 0x01,
            l: 0x4D,
            sp: 0xFFFE,
            pc: 0x0100,
        }
    }

    /// Reads BC.
    #[verifier::when_used_as_spec(spec_bc)]
    pub fn bc(&self) -> (value: u16)
        ensures
            value == self.spec_bc(),
    {
        word(self.b, self.c)
    }

    /// Reads DE.
    #[verifier::when_used_as_spec(spec_de)]
    pub fn de(&self) -> (value: u16)
        ensures
            value == self.spec_de(),
    {
        word(self.d, self.e)
    }

    /// Reads HL.
    #[verifier::when_used_as_spec(spec_hl)]
    pub fn hl(&self) -> (value: u16)
        ensures
            value == self.spec_hl(),
    {
        word(self.h, self.l)
    }

    /// Writes BC: both halves change together, nothing else does.
    pub fn set_bc(&mut self, value: u16)
        ensures
            *final(self) == old(self).with_bc(value),
            final(self).spec_bc() == value,
    {
        self.b = high_byte(value);
        self.c = low_byte(value);
    }

    /// Writes DE: both halves change together, nothing else does.
    pub fn set_de(&mut self, value: u16)
        ensures
            *final(self) == old(self).with_de(value),
            final(self).spec_de() == value,
    {
        self.d = high_byte(value);
        self.e = low_byte(value);
    }

    /// Writes HL: both halves change together, nothing else does.
    pub fn set_hl(&mut self, value: u16)
        ensures
            *final(self) == old(self).with_hl(value),
            final(self).spec_hl() == value,
    {
        self.h = high_byte(value);
        self.l = low_byte(value);
    }

    /// Reads a 16-bit register.
    #[verifier::when_used_as_spec(spec_get16)]
    pub fn get16(&self, r: Reg16) -> (value: u16)
        ensures
            value == self.spec_get16(r),
    {
        match r {
            Reg16::BC => self.bc(),
            Reg16::DE => self.de(),
            Reg16::HL => self.hl(),
            Reg16::SP => self.sp,
        }
    }

    /// Writes a 16-bit register.
    pub fn set16(&mut self, r: Reg16, value: u16)
        ensures
            *final(self) == old(self).with16(r, value),
            final(self).spec_get16(r) == value,
    {
        match r {
            Reg16::BC => self.set_bc(value),
            Reg16::DE => self.set_de(value),
            Reg16::HL => self.set_hl(value),
            Reg16::SP => {
                self.sp = value;
            },
        }
    }
}

/// A pair that was written reads back as the word written, its high half
/// as the word's upper byte and its low half as the lower byte; a pair
/// written with its own value leaves the registers as they were.
pub proof fn lemma_pair_round_trip(regs: Registers, r: Reg16, value: u16)
    ensures
        regs.with16(r, value).spec_get16(r) == value,
        regs.with_bc(value).b == value / 0x100 && regs.with_bc(value).c == value % 0x100,
        regs.with_de(value).d == value / 0x100 && regs.with_de(value).e == value % 0x100,
        regs.with_hl(value).h == value / 0x100 && regs.with_hl(value).l == value % 0x100,
        regs.with16(r, regs.spec_get16(r)) == regs,
{
}

} // verus!
