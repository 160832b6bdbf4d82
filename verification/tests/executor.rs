use gb_emu::cpu::CPU;
use gb_emu::instruction::{Condition, Operand8};
use gb_emu::machine::{ControlState, Notice};
use gb_emu::mmu::MMU;
use gb_emu::registers::{Reg16, Registers};

/// A processor after boot, with `program` at the entry point 0x0100.
fn cpu_with(program: &[u8]) -> CPU {
    let mut rom = vec![0u8; 0x8000];
    rom[0x0100..0x0100 + program.len()].copy_from_slice(program);
    CPU::new(MMU::new(rom))
}

#[test]
fn a_new_processor_runs_from_the_entry_point() {
    let cpu = cpu_with(&[]);
    assert_eq!(cpu.regs, Registers::new());
    assert_eq!(cpu.regs.pc, 0x0100);
    assert_eq!(cpu.state, ControlState::Running);
    assert!(cpu.ime);
    assert!(cpu.notices.is_empty());
    assert_eq!(cpu.mmu.read_byte(0xC000), 0x00);
}

#[test]
fn nop_only_moves_pc() {
    let mut cpu = cpu_with(&[0x00]);
    let before = cpu.regs;
    cpu.step();
    assert_eq!(cpu.regs, Registers { pc: 0x0101, ..before });
    assert_eq!(cpu.state, ControlState::Running);
    assert!(cpu.notices.is_empty());
}

#[test]
fn inc_a_wraps_ff_to_zero_with_z_and_h() {
    let mut cpu = cpu_with(&[0x3C]);
    cpu.regs.a = 0xFF;
    cpu.regs.f = 0x00;
    cpu.step();
    assert_eq!(cpu.regs.a, 0x00);
    assert_eq!(cpu.regs.f & 0x80, 0x80);
    assert_eq!(cpu.regs.f & 0x20, 0x20);
    assert_eq!(cpu.regs.f, 0xA0);
    assert_eq!(cpu.regs.pc, 0x0101);
}

#[test]
fn dec_a_wraps_zero_to_ff_with_n_and_h() {
    let mut cpu = cpu_with(&[0x3D]);
    cpu.regs.a = 0x00;
    cpu.regs.f = 0x00;
    cpu.step();
    assert_eq!(cpu.regs.a, 0xFF);
    assert_eq!(cpu.regs.f & 0x80, 0x00);
    assert_eq!(cpu.regs.f & 0x40, 0x40);
    assert_eq!(cpu.regs.f & 0x20, 0x20);
    assert_eq!(cpu.regs.f, 0x60);
}

#[test]
fn inc_and_dec_reach_every_register() {
    // INC B, C, D, E, H, L, A then DEC of the same.
    let mut cpu = cpu_with(&[
        0x04, 0x0C, 0x14, 0x1C, 0x24, 0x2C, 0x3C, 0x05, 0x0D, 0x15, 0x1D, 0x25, 0x2D, 0x3D,
    ]);
    cpu.regs = Registers { a: 7, b: 1, c: 2, d: 3, e: 4, h: 5, l: 6, ..cpu.regs };
    for _ in 0..7 {
        cpu.step();
    }
    assert_eq!(
        (cpu.regs.b, cpu.regs.c, cpu.regs.d, cpu.regs.e, cpu.regs.h, cpu.regs.l, cpu.regs.a),
        (2, 3, 4, 5, 6, 7, 8)
    );
    for _ in 0..7 {
        cpu.step();
    }
    assert_eq!(
        (cpu.regs.b, cpu.regs.c, cpu.regs.d, cpu.regs.e, cpu.regs.h, cpu.regs.l, cpu.regs.a),
        (1, 2, 3, 4, 5, 6, 7)
    );
    assert_eq!(cpu.regs.pc, 0x010E);
}

#[test]
fn inc_and_dec_through_hl() {
    let mut cpu = cpu_with(&[0x34, 0x35, 0x35]);
    cpu.regs.set_hl(0xC010);
    cpu.regs.f = 0x10;
    cpu.mmu.write_byte(0xC010, 0x0F);
    cpu.step();
    assert_eq!(cpu.mmu.read_byte(0xC010), 0x10);
    assert_eq!(cpu.regs.f, 0x30);
    cpu.step();
    assert_eq!(cpu.mmu.read_byte(0xC010), 0x0F);
    assert_eq!(cpu.regs.f, 0x70);
    cpu.step();
    assert_eq!(cpu.mmu.read_byte(0xC010), 0x0E);
    assert_eq!(cpu.regs.f, 0x50);
    assert_eq!(cpu.regs.hl(), 0xC010);
    assert!(cpu.notices.is_empty());
}

#[test]
fn adc_carry_propagation_through_step() {
    let mut cpu = cpu_with(&[0x88]);
    cpu.regs.a = 0x20;
    cpu.regs.b = 0xFF;
    cpu.regs.f = 0x10;
    cpu.step();
    assert_eq!(cpu.regs.a, 0x20);
    assert_eq!(cpu.regs.f & 0x80, 0x00);
    assert_eq!(cpu.regs.f & 0x20, 0x20);
    assert_eq!(cpu.regs.f & 0x10, 0x10);
    assert_eq!(cpu.regs.f, 0x30);
    assert_eq!(cpu.regs.b, 0xFF);
    assert_eq!(cpu.regs.pc, 0x0101);
}

#[test]
fn adc_without_incoming_carry_is_a_plain_sum() {
    let mut cpu = cpu_with(&[0x89, 0x8A, 0x8B, 0x8C, 0x8D]);
    cpu.regs = Registers { a: 0, f: 0, c: 1, d: 2, e: 3, h: 4, l: 5, ..cpu.regs };
    for _ in 0..5 {
        cpu.step();
    }
    assert_eq!(cpu.regs.a, 15);
    assert_eq!(cpu.regs.f, 0x00);
}

#[test]
fn add_a_register_sets_the_flags_of_an_addition() {
    let mut cpu = cpu_with(&[0x80, 0x87, 0x81]);
    cpu.regs.a = 0x42;
    cpu.regs.b = 0x10;
    cpu.regs.c = 0x5C;
    cpu.regs.f = 0xF0;
    cpu.step();
    assert_eq!(cpu.regs.a, 0x52);
    assert_eq!(cpu.regs.f, 0x00);
    cpu.step();
    assert_eq!(cpu.regs.a, 0xA4);
    assert_eq!(cpu.regs.f, 0x00);
    cpu.step();
    assert_eq!(cpu.regs.a, 0x00);
    assert_eq!(cpu.regs.f, 0xB0);
}

#[test]
fn add_a_wraps_instead_of_failing() {
    let mut cpu = cpu_with(&[0x80, 0xC6, 0xFF, 0xD6, 0x01]);
    cpu.regs.a = 0xFF;
    cpu.regs.b = 0x02;
    cpu.step();
    assert_eq!(cpu.regs.a, 0x01);
    assert_eq!(cpu.regs.f, 0x30);
    cpu.step();
    assert_eq!(cpu.regs.a, 0x00);
    assert_eq!(cpu.regs.f, 0xB0);
    cpu.step();
    assert_eq!(cpu.regs.a, 0xFF);
    assert_eq!(cpu.regs.f, 0x70);
    assert_eq!(cpu.regs.pc, 0x0105);
}

#[test]
fn add_a_from_memory() {
    let mut cpu = cpu_with(&[0x86]);
    cpu.regs.a = 0x01;
    cpu.regs.set_hl(0xFF80);
    cpu.mmu.write_byte(0xFF80, 0x0F);
    cpu.step();
    assert_eq!(cpu.regs.a, 0x10);
    assert_eq!(cpu.regs.f, 0x20);
}

#[test]
fn end_to_end_byte_sequence() {
    // LD A,0x42; LD B,0x10; ADD A,B; LD DE,0x1190
    let mut cpu = cpu_with(&[0x3E, 0x42, 0x06, 0x10, 0x80, 0x11, 0x90, 0x11]);
    assert_eq!(cpu.regs.pc, 0x0100);
    cpu.step();
    assert_eq!(cpu.regs.a, 0x42);
    assert_eq!(cpu.regs.pc, 0x0102);
    cpu.step();
    assert_eq!(cpu.regs.a, 0x42);
    assert_eq!(cpu.regs.b, 0x10);
    assert_eq!(cpu.regs.pc, 0x0104);
    cpu.step();
    assert_eq!(cpu.regs.a, 0x52);
    assert_eq!(cpu.regs.pc, 0x0105);
    cpu.step();
    assert_eq!(cpu.regs.a, 0x52);
    assert_eq!(cpu.regs.de(), 0x1190);
    assert_eq!(cpu.regs.pc, 0x0108);
    assert!(cpu.notices.is_empty());
}

#[test]
fn end_to_end_immediate_add_and_subtract() {
    // LD A,0x42; LD B,0x10; ADD A,0x11; SUB A,0x11
    let mut cpu = cpu_with(&[0x3E, 0x42, 0x06, 0x10, 0xC6, 0x11, 0xD6, 0x11]);
    cpu.regs.a = 0x00;
    cpu.step();
    assert_eq!(cpu.regs.a, 0x42);
    cpu.step();
    assert_eq!(cpu.regs.a, 0x42);
    assert_eq!(cpu.regs.b, 0x10);
    cpu.step();
    assert_eq!(cpu.regs.a, 0x53);
    assert_eq!(cpu.regs.f, 0x00);
    cpu.step();
    assert_eq!(cpu.regs.a, 0x42);
    assert_eq!(cpu.regs.f, 0x40);
    assert_eq!(cpu.regs.pc, 0x0108);
}

#[test]
fn jr_nz_with_z_set_advances_pc_by_two() {
    let mut cpu = cpu_with(&[0x20, 0x10]);
    cpu.regs.f = 0x80;
    let before = cpu.regs;
    cpu.step();
    assert_eq!(cpu.regs.pc, 0x0102);
    assert_eq!(cpu.regs, Registers { pc: 0x0102, ..before });
}

#[test]
fn conditional_jumps_always_consume_the_displacement() {
    // (opcode, flags under which the jump is taken, flags under which it is not)
    for (opcode, taken, not_taken) in
        [(0x20u8, 0x00u8, 0x80u8), (0x28, 0x80, 0x00), (0x30, 0x00, 0x10), (0x38, 0x10, 0x00)]
    {
        let mut cpu = cpu_with(&[opcode, 0x05]);
        cpu.regs.f = not_taken;
        cpu.step();
        assert_eq!(cpu.regs.pc, 0x0102);
        assert_eq!(cpu.regs.f, not_taken);

        let mut cpu = cpu_with(&[opcode, 0x05]);
        cpu.regs.f = taken;
        cpu.step();
        assert_eq!(cpu.regs.pc, 0x0107);
        assert_eq!(cpu.regs.f, taken);

        let mut cpu = cpu_with(&[opcode, 0xFE]);
        cpu.regs.f = taken;
        cpu.step();
        assert_eq!(cpu.regs.pc, 0x0100);
    }
}

#[test]
fn jr_takes_a_signed_displacement() {
    let mut cpu = cpu_with(&[0x18, 0x7F]);
    cpu.step();
    assert_eq!(cpu.regs.pc, 0x0181);
    let mut cpu = cpu_with(&[0x18, 0x80]);
    cpu.step();
    assert_eq!(cpu.regs.pc, 0x0082);
    let mut cpu = cpu_with(&[0x18, 0xFE]);
    cpu.step();
    cpu.step();
    cpu.step();
    assert_eq!(cpu.regs.pc, 0x0100);
}

#[test]
fn jp_loads_pc_from_a_little_endian_word() {
    let mut cpu = cpu_with(&[0xC3, 0x34, 0x12]);
    let before = cpu.regs;
    cpu.step();
    assert_eq!(cpu.regs, Registers { pc: 0x1234, ..before });
}

#[test]
fn sixteen_bit_immediates_are_little_endian() {
    let mut cpu = cpu_with(&[0x01, 0x34, 0x12, 0x11, 0x78, 0x56, 0x21, 0xBC, 0x9A, 0x31, 0xF0, 0xDE]);
    for _ in 0..4 {
        cpu.step();
    }
    assert_eq!(cpu.regs.bc(), 0x1234);
    assert_eq!(cpu.regs.de(), 0x5678);
    assert_eq!(cpu.regs.hl(), 0x9ABC);
    assert_eq!(cpu.regs.sp, 0xDEF0);
    assert_eq!(cpu.regs.pc, 0x010C);
    assert_eq!(cpu.regs.f, 0xB0);
}

#[test]
fn eight_bit_immediates_load_every_operand() {
    let mut cpu = cpu_with(&[
        0x06, 0x01, 0x0E, 0x02, 0x16, 0x03, 0x1E, 0x04, 0x26, 0xC0, 0x2E, 0x06, 0x3E, 0x07, 0x36,
        0x08,
    ]);
    for _ in 0..8 {
        cpu.step();
    }
    assert_eq!(
        (cpu.regs.b, cpu.regs.c, cpu.regs.d, cpu.regs.e, cpu.regs.h, cpu.regs.l, cpu.regs.a),
        (1, 2, 3, 4, 0xC0, 6, 7)
    );
    assert_eq!(cpu.mmu.read_byte(0xC006), 0x08);
    assert_eq!(cpu.regs.pc, 0x0110);
}

#[test]
fn register_to_register_loads_reach_every_pair() {
    let operands = [
        Operand8::B,
        Operand8::C,
        Operand8::D,
        Operand8::E,
        Operand8::H,
        Operand8::L,
        Operand8::A,
    ];
    for (y, dst) in [0u8, 1, 2, 3, 4, 5, 7].into_iter().zip(operands) {
        for (z, src) in [0u8, 1, 2, 3, 4, 5, 7].into_iter().zip(operands) {
            let opcode = 0x40 | (y << 3) | z;
            let mut cpu = cpu_with(&[opcode]);
            cpu.regs =
                Registers { a: 0xA0, b: 0xB0, c: 0xC0, d: 0xD0, e: 0xE0, h: 0x11, l: 0x22, ..cpu.regs };
            let before = cpu.regs;
            let value = match src {
                Operand8::A => before.a,
                Operand8::B => before.b,
                Operand8::C => before.c,
                Operand8::D => before.d,
                Operand8::E => before.e,
                Operand8::H => before.h,
                Operand8::L => before.l,
                Operand8::HlIndirect => unreachable!(),
            };
            let mut expected = Registers { pc: 0x0101, ..before };
            match dst {
                Operand8::A => expected.a = value,
                Operand8::B => expected.b = value,
                Operand8::C => expected.c = value,
                Operand8::D => expected.d = value,
                Operand8::E => expected.e = value,
                Operand8::H => expected.h = value,
                Operand8::L => expected.l = value,
                Operand8::HlIndirect => unreachable!(),
            }
            cpu.step();
            assert_eq!(cpu.regs, expected);
        }
    }
}

#[test]
fn loads_between_registers_and_memory_at_hl() {
    // LD [HL],B; LD A,[HL]; LD H,[HL]; LD [HL],L
    let mut cpu = cpu_with(&[0x70, 0x7E, 0x66, 0x75]);
    cpu.regs.set_hl(0xC100);
    cpu.regs.b = 0xC2;
    cpu.step();
    assert_eq!(cpu.mmu.read_byte(0xC100), 0xC2);
    cpu.step();
    assert_eq!(cpu.regs.a, 0xC2);
    cpu.step();
    assert_eq!(cpu.regs.hl(), 0xC200);
    cpu.step();
    assert_eq!(cpu.mmu.read_byte(0xC200), 0x00);
    cpu.regs.l = 0x05;
    cpu.ld_r8_r8(Operand8::HlIndirect, Operand8::L);
    assert_eq!(cpu.mmu.read_byte(0xC205), 0x05);
    assert!(cpu.notices.is_empty());
}

#[test]
fn accumulator_stores_and_loads_through_pairs() {
    // LD [BC],A; LD [DE],A; LD [HL+],A; LD [HL-],A
    let mut cpu = cpu_with(&[0x02, 0x12, 0x22, 0x32, 0x0A, 0x1A, 0x2A, 0x3A]);
    cpu.regs.a = 0x99;
    cpu.regs.set_bc(0xC000);
    cpu.regs.set_de(0xC001);
    cpu.regs.set_hl(0xC0FF);
    cpu.step();
    cpu.step();
    assert_eq!(cpu.mmu.read_byte(0xC000), 0x99);
    assert_eq!(cpu.mmu.read_byte(0xC001), 0x99);
    cpu.step();
    assert_eq!(cpu.mmu.read_byte(0xC0FF), 0x99);
    assert_eq!(cpu.regs.hl(), 0xC100);
    cpu.regs.a = 0x77;
    cpu.step();
    assert_eq!(cpu.mmu.read_byte(0xC100), 0x77);
    assert_eq!(cpu.regs.hl(), 0xC0FF);

    cpu.mmu.write_byte(0xC000, 0x01);
    cpu.mmu.write_byte(0xC001, 0x02);
    cpu.step();
    assert_eq!(cpu.regs.a, 0x01);
    cpu.step();
    assert_eq!(cpu.regs.a, 0x02);
    cpu.step();
    assert_eq!(cpu.regs.a, 0x99);
    assert_eq!(cpu.regs.hl(), 0xC100);
    cpu.step();
    assert_eq!(cpu.regs.a, 0x77);
    assert_eq!(cpu.regs.hl(), 0xC0FF);
    assert_eq!(cpu.regs.f, 0xB0);
}

#[test]
fn hl_wraps_after_an_access() {
    let mut cpu = cpu_with(&[0x22, 0x32, 0x32]);
    cpu.regs.set_hl(0xFFFF);
    cpu.regs.a = 0x1F;
    cpu.step();
    assert_eq!(cpu.mmu.read_byte(0xFFFF), 0x1F);
    assert_eq!(cpu.regs.hl(), 0x0000);
    cpu.step();
    assert_eq!(cpu.regs.hl(), 0xFFFF);
    assert_eq!(cpu.notices, vec![Notice::UnmappedWrite(0x0000)]);
}

#[test]
fn store_stack_pointer_writes_low_then_high() {
    let mut cpu = cpu_with(&[0x08, 0x00, 0xC0]);
    cpu.regs.sp = 0x1234;
    cpu.step();
    assert_eq!(cpu.mmu.read_byte(0xC000), 0x34);
    assert_eq!(cpu.mmu.read_byte(0xC001), 0x12);
    assert_eq!(cpu.regs.pc, 0x0103);
    assert_eq!(cpu.regs.sp, 0x1234);
}

#[test]
fn store_stack_pointer_wraps_at_the_top_of_memory() {
    let mut cpu = cpu_with(&[0x08, 0xFF, 0xFF]);
    cpu.regs.sp = 0xABCD;
    cpu.step();
    assert_eq!(cpu.mmu.read_byte(0xFFFF), 0xCD);
    assert_eq!(cpu.notices, vec![Notice::UnmappedWrite(0x0000)]);
    assert_eq!(cpu.regs.pc, 0x0103);
}

#[test]
fn sixteen_bit_inc_and_dec_wrap_and_leave_flags() {
    let mut cpu = cpu_with(&[0x03, 0x13, 0x23, 0x33, 0x0B, 0x1B, 0x2B, 0x3B]);
    cpu.regs.set_bc(0xFFFF);
    cpu.regs.set_de(0x00FF);
    cpu.regs.set_hl(0x1234);
    cpu.regs.sp = 0xFFFF;
    cpu.regs.f = 0xF0;
    for _ in 0..4 {
        cpu.step();
    }
    assert_eq!(cpu.regs.bc(), 0x0000);
    assert_eq!(cpu.regs.de(), 0x0100);
    assert_eq!(cpu.regs.hl(), 0x1235);
    assert_eq!(cpu.regs.sp, 0x0000);
    for _ in 0..4 {
        cpu.step();
    }
    assert_eq!(cpu.regs.bc(), 0xFFFF);
    assert_eq!(cpu.regs.de(), 0x00FF);
    assert_eq!(cpu.regs.hl(), 0x1234);
    assert_eq!(cpu.regs.sp, 0xFFFF);
    assert_eq!(cpu.regs.f, 0xF0);
}

#[test]
fn add_hl_keeps_z_and_sets_h_and_c() {
    let mut cpu = cpu_with(&[0x09, 0x19, 0x29, 0x39]);
    cpu.regs.set_hl(0x0FFF);
    cpu.regs.set_bc(0x0001);
    cpu.regs.set_de(0xF000);
    cpu.regs.sp = 0x0001;
    cpu.regs.f = 0xC0;
    cpu.step();
    assert_eq!(cpu.regs.hl(), 0x1000);
    assert_eq!(cpu.regs.f, 0xA0);
    cpu.step();
    assert_eq!(cpu.regs.hl(), 0x0000);
    assert_eq!(cpu.regs.f, 0x90);
    cpu.regs.set_hl(0x8800);
    cpu.step();
    assert_eq!(cpu.regs.hl(), 0x1000);
    assert_eq!(cpu.regs.f, 0xB0);
    cpu.regs.f = 0x00;
    cpu.step();
    assert_eq!(cpu.regs.hl(), 0x1001);
    assert_eq!(cpu.regs.f, 0x00);
    assert_eq!(cpu.regs.bc(), 0x0001);
    assert_eq!(cpu.regs.de(), 0xF000);
}

#[test]
fn accumulator_rotates() {
    let mut cpu = cpu_with(&[0x07, 0x0F, 0x17, 0x1F]);
    cpu.regs.a = 0x85;
    cpu.regs.f = 0xE0;
    cpu.step();
    assert_eq!((cpu.regs.a, cpu.regs.f), (0x0B, 0x10));
    cpu.step();
    assert_eq!((cpu.regs.a, cpu.regs.f), (0x85, 0x10));
    cpu.step();
    assert_eq!((cpu.regs.a, cpu.regs.f), (0x0B, 0x10));
    cpu.step();
    assert_eq!((cpu.regs.a, cpu.regs.f), (0x85, 0x10));
    cpu.regs.a = 0x00;
    cpu.regs.f = 0x00;
    cpu.rla();
    assert_eq!((cpu.regs.a, cpu.regs.f), (0x00, 0x00));
}

#[test]
fn daa_corrects_a_decimal_sum() {
    // LD A,0x15; ADD A,0x27; DAA
    let mut cpu = cpu_with(&[0x3E, 0x15, 0xC6, 0x27, 0x27]);
    cpu.step();
    cpu.step();
    assert_eq!(cpu.regs.a, 0x3C);
    cpu.step();
    assert_eq!(cpu.regs.a, 0x42);
    assert_eq!(cpu.regs.f, 0x00);
}

#[test]
fn daa_corrects_a_decimal_difference() {
    // LD A,0x42; SUB A,0x15; DAA
    let mut cpu = cpu_with(&[0x3E, 0x42, 0xD6, 0x15, 0x27]);
    cpu.step();
    cpu.step();
    assert_eq!(cpu.regs.a, 0x2D);
    assert_eq!(cpu.regs.f, 0x60);
    cpu.step();
    assert_eq!(cpu.regs.a, 0x27);
    assert_eq!(cpu.regs.f, 0x40);
}

#[test]
fn cpl_scf_ccf_follow_their_table() {
    let mut cpu = cpu_with(&[0x2F, 0x37, 0x3F, 0x3F]);
    cpu.regs.a = 0x0F;
    cpu.regs.f = 0x80;
    cpu.step();
    assert_eq!((cpu.regs.a, cpu.regs.f), (0xF0, 0xE0));
    cpu.step();
    assert_eq!((cpu.regs.a, cpu.regs.f), (0xF0, 0x90));
    cpu.step();
    assert_eq!(cpu.regs.f, 0x80);
    cpu.step();
    assert_eq!(cpu.regs.f, 0x90);
}

#[test]
fn high_page_loads_and_stores() {
    // LDH [0x80],A; LDH [C],A; LD [0xC123],A; LDH A,[C]
    let mut cpu = cpu_with(&[0xE0, 0x80, 0xE2, 0xEA, 0x23, 0xC1, 0xF2]);
    cpu.regs.a = 0x5A;
    cpu.regs.c = 0x90;
    cpu.step();
    assert_eq!(cpu.mmu.read_byte(0xFF80), 0x5A);
    cpu.step();
    assert_eq!(cpu.mmu.read_byte(0xFF90), 0x5A);
    cpu.step();
    assert_eq!(cpu.mmu.read_byte(0xC123), 0x5A);
    cpu.mmu.write_byte(0xFF90, 0x33);
    cpu.step();
    assert_eq!(cpu.regs.a, 0x33);
    assert_eq!(cpu.regs.pc, 0x0107);
    assert!(cpu.notices.is_empty());
}

#[test]
fn high_page_access_outside_high_ram_is_noted() {
    let mut cpu = cpu_with(&[0xE0, 0x10, 0xF2]);
    cpu.regs.a = 0x5A;
    cpu.regs.c = 0x20;
    cpu.step();
    assert_eq!(cpu.notices, vec![Notice::UnmappedWrite(0xFF10)]);
    cpu.step();
    assert_eq!(cpu.regs.a, 0xFF);
    assert_eq!(cpu.notices, vec![Notice::UnmappedWrite(0xFF10), Notice::UnmappedRead(0xFF20)]);
}

#[test]
fn an_unknown_opcode_is_skipped_with_a_notice() {
    for opcode in [0x8Eu8, 0x8F, 0x90, 0xA0, 0xCB, 0xCD, 0xC9, 0xD3, 0xFF] {
        let mut cpu = cpu_with(&[opcode, 0x00]);
        let before = cpu.regs;
        cpu.step();
        assert_eq!(cpu.regs, Registers { pc: 0x0101, ..before });
        assert_eq!(cpu.state, ControlState::Running);
        assert_eq!(cpu.notices, vec![Notice::UnknownOpcode(opcode)]);
        cpu.step();
        assert_eq!(cpu.regs.pc, 0x0102);
        assert_eq!(cpu.notices, vec![Notice::UnknownOpcode(opcode)]);
    }
}

#[test]
fn fetching_from_unmapped_memory_reads_ff() {
    let mut cpu = cpu_with(&[]);
    cpu.regs.pc = 0x8000;
    cpu.step();
    assert_eq!(cpu.regs.pc, 0x8001);
    assert_eq!(cpu.notices, vec![Notice::UnmappedRead(0x8000), Notice::UnknownOpcode(0xFF)]);
}

#[test]
fn pc_wraps_at_the_top_of_memory() {
    let mut cpu = cpu_with(&[]);
    cpu.regs.pc = 0xFFFF;
    cpu.mmu.write_byte(0xFFFF, 0x00);
    cpu.step();
    assert_eq!(cpu.regs.pc, 0x0000);
    // LD A,n with the opcode at 0xFFFF takes its operand from 0x0000.
    cpu.regs.pc = 0xFFFF;
    cpu.mmu.write_byte(0xFFFF, 0x3E);
    cpu.step();
    assert_eq!(cpu.regs.pc, 0x0001);
    assert_eq!(cpu.regs.a, 0x00);
}

#[test]
fn take_notices_empties_the_list() {
    let mut cpu = cpu_with(&[0xD3, 0xDB]);
    cpu.step();
    cpu.step();
    let taken = cpu.take_notices();
    assert_eq!(taken, vec![Notice::UnknownOpcode(0xD3), Notice::UnknownOpcode(0xDB)]);
    assert!(cpu.notices.is_empty());
    assert_eq!(cpu.regs.pc, 0x0102);
    assert!(cpu.take_notices().is_empty());
}

#[test]
fn halt_with_interrupts_enabled_halts() {
    let mut cpu = cpu_with(&[0x76]);
    assert!(cpu.ime);
    cpu.mmu.write_byte(0xFFFF, 0x01);
    cpu.mmu.write_byte(0xFF0F, 0x01);
    cpu.step();
    assert_eq!(cpu.state, ControlState::Halted);
    assert_eq!(cpu.regs.pc, 0x0101);
    cpu.handle_interrupts();
    assert_eq!(cpu.state, ControlState::Running);
}

#[test]
fn halt_with_interrupts_disabled_and_one_pending_keeps_running() {
    let mut cpu = cpu_with(&[0x76]);
    cpu.ime = false;
    cpu.mmu.write_byte(0xFFFF, 0x05);
    cpu.mmu.write_byte(0xFF0F, 0x04);
    cpu.step();
    assert_eq!(cpu.state, ControlState::Running);
    assert_eq!(cpu.regs.pc, 0x0101);
    assert!(!cpu.ime);
}

#[test]
fn halt_with_interrupts_disabled_and_none_pending_halts() {
    let mut cpu = cpu_with(&[0x76, 0x76]);
    cpu.ime = false;
    cpu.step();
    assert_eq!(cpu.state, ControlState::Halted);
    // Enabled and flagged, but not the same interrupt.
    let mut cpu = cpu_with(&[0x76]);
    cpu.ime = false;
    cpu.mmu.write_byte(0xFFFF, 0x01);
    cpu.mmu.write_byte(0xFF0F, 0x02);
    cpu.step();
    assert_eq!(cpu.state, ControlState::Halted);
}

#[test]
fn stop_stops_until_the_interrupt_signal() {
    let mut cpu = cpu_with(&[0x10, 0x00]);
    let before = cpu.regs;
    cpu.step();
    assert_eq!(cpu.state, ControlState::Stopped);
    assert_eq!(cpu.regs, Registers { pc: 0x0101, ..before });
    // A step does not look at the control state: the driver does.
    cpu.step();
    assert_eq!(cpu.state, ControlState::Stopped);
    assert_eq!(cpu.regs.pc, 0x0102);
    cpu.handle_interrupts();
    assert_eq!(cpu.state, ControlState::Running);
    cpu.handle_interrupts();
    assert_eq!(cpu.state, ControlState::Running);
}

#[test]
fn handlers_can_be_called_directly() {
    let mut cpu = cpu_with(&[0x05, 0x34, 0x12]);
    cpu.regs.f = 0x00;
    cpu.regs.a = 0x20;
    cpu.adc_a(0x22);
    assert_eq!((cpu.regs.a, cpu.regs.f), (0x42, 0x00));
    cpu.add_a(0xBE);
    assert_eq!((cpu.regs.a, cpu.regs.f), (0x00, 0xB0));
    cpu.sub_a(0x01);
    assert_eq!((cpu.regs.a, cpu.regs.f), (0xFF, 0x70));
    cpu.inc_r8(Operand8::A);
    assert_eq!((cpu.regs.a, cpu.regs.f), (0x00, 0xB0));
    cpu.dec_r8(Operand8::B);
    assert_eq!((cpu.regs.b, cpu.regs.f), (0xFF, 0x70));
    assert_eq!(cpu.fetch(), 0x05);
    assert_eq!(cpu.fetch_word(), 0x1234);
    assert_eq!(cpu.regs.pc, 0x0103);
    cpu.regs.set_hl(0x00FF);
    cpu.add_hl_r16(Reg16::HL);
    assert_eq!(cpu.regs.hl(), 0x01FE);
    cpu.inc_r16(Reg16::SP);
    assert_eq!(cpu.regs.sp, 0xFFFF);
    cpu.dec_r16(Reg16::BC);
    assert_eq!(cpu.regs.bc(), 0xFF12);
    assert_eq!(cpu.get_inc_r16_value(0xFF, 0xFF), 0x0000);
    assert_eq!(cpu.get_dec_r16_value(0x00, 0x00), 0xFFFF);
    cpu.regs.f = 0x10;
    assert!(cpu.condition_holds(Condition::C));
    assert!(cpu.condition_holds(Condition::NZ));
    assert!(!cpu.condition_holds(Condition::NC));
    assert!(!cpu.condition_holds(Condition::Z));
    cpu.execute(0x3C);
    assert_eq!(cpu.regs.a, 0x01);
    assert_eq!(cpu.regs.pc, 0x0103);
}

#[test]
fn bus_accesses_leave_notices_in_order() {
    let mut cpu = cpu_with(&[]);
    assert_eq!(cpu.load(0x0100), 0x00);
    assert_eq!(cpu.load(0xA000), 0xFF);
    cpu.store(0x0100, 0x01);
    cpu.store(0xC000, 0x02);
    assert_eq!(cpu.load(0xC000), 0x02);
    cpu.ld_r16mem(0x90, 0x00);
    cpu.ld_a_r16mem(0xFE, 0xA0);
    assert_eq!(cpu.regs.a, 0xFF);
    assert_eq!(
        cpu.notices,
        vec![
            Notice::UnmappedRead(0xA000),
            Notice::UnmappedWrite(0x0100),
            Notice::UnmappedWrite(0x9000),
            Notice::UnmappedRead(0xFEA0),
        ]
    );
}

#[test]
fn the_lower_nibble_of_f_stays_zero() {
    // Every opcode once, from the state after boot.
    for opcode in 0u8..=255 {
        let mut cpu = cpu_with(&[opcode, 0x01, 0xC0]);
        cpu.regs.set_hl(0xC000);
        cpu.step();
        assert_eq!(cpu.regs.f & 0x0F, 0, "opcode {:#04X}", opcode);
    }
}

#[test]
fn the_decrement_loop_of_the_demonstration_program() {
    // NOP; DEC A; DEC B; DEC C; DEC D; DEC E; DEC H; DEC L; DEC [HL]; JP 0x0100
    let mut cpu =
        cpu_with(&[0x00, 0x3D, 0x05, 0x0D, 0x15, 0x1D, 0x25, 0x2D, 0x35, 0xC3, 0x00, 0x01]);
    cpu.regs.a = 0x10;
    cpu.regs.b = 0x02;
    cpu.regs.c = 0x03;
    cpu.regs.d = 0x04;
    cpu.regs.e = 0x05;
    cpu.regs.h = 0xFF;
    cpu.regs.l = 0x81;
    cpu.mmu.write_byte(0xFF81, 0x06);
    for _ in 0..8 {
        cpu.step();
    }
    assert_eq!(
        (cpu.regs.a, cpu.regs.b, cpu.regs.c, cpu.regs.d, cpu.regs.e, cpu.regs.h, cpu.regs.l),
        (0x0F, 0x01, 0x02, 0x03, 0x04, 0xFE, 0x80)
    );
    assert_eq!(cpu.regs.f, 0x50);
    cpu.step();
    // HL is 0xFE80 by now, where nothing is mapped.
    assert_eq!(cpu.notices, vec![Notice::UnmappedRead(0xFE80), Notice::UnmappedWrite(0xFE80)]);
    assert_eq!(cpu.regs.f, 0x50);
    assert_eq!(cpu.mmu.read_byte(0xFF81), 0x06);
    cpu.step();
    assert_eq!(cpu.regs.pc, 0x0100);
    assert_eq!(cpu.regs.sp, 0xFFFE);
}

#[test]
fn next_instruction_looks_ahead_without_stepping() {
    let mut cpu = cpu_with(&[0x10, 0x3C]);
    assert_eq!(cpu.next_instruction(), gb_emu::instruction::Instruction::Stop);
    assert_eq!(cpu.regs.pc, 0x0100);
    cpu.step();
    assert_eq!(
        cpu.next_instruction(),
        gb_emu::instruction::Instruction::Increment8(Operand8::A)
    );
    cpu.regs.pc = 0x9000;
    assert_eq!(cpu.next_instruction(), gb_emu::instruction::Instruction::Unknown(0xFF));
    assert!(cpu.notices.is_empty());
}
