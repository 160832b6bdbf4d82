//! Arithmetic and flag rules of the processor, as functions on plain bytes
//! and words. Results are stated modulo 2^8 or 2^16: nothing here overflows.

use vstd::prelude::*;
use crate::flags::{byte_of, carry, half_carry, pack, spec_carry, spec_half_carry, spec_subtract,
    spec_zero, subtract, well_formed, zero};

verus! {

/// An 8-bit result together with the flag byte it leaves behind.
#[derive(Clone, Copy, Debug, PartialEq, Eq, Structural)]
pub struct ByteResult {
    pub value: u8,
    pub flags: u8,
}

/// A 16-bit result together with the flag byte it leaves behind.
#[derive(Clone, Copy, Debug, PartialEq, Eq, Structural)]
pub struct WordResult {
    pub value: u16,
    pub flags: u8,
}

/// `x` reduced modulo 2^8. The sums and differences of two bytes and a
/// carry lie within one wrap of the range, where the reduction adds or
/// takes away 2^8 once.
pub open spec fn wrap8(x: int) -> u8 {
    if 0 <= x <= 0xFF {
        x as u8
    } else if 0x100 <= x <= 0x1FF {
        (x - 0x100) as u8
    } else if -0x100 <= x < 0 {
        (x + 0x100) as u8
    } else {
        (x % 0x100) as u8
    }
}

/// `x` reduced modulo 2^16.
pub open spec fn wrap16(x: int) -> u16 {
    if 0 <= x <= 0xFFFF {
        x as u16
    } else if 0x1_0000 <= x <= 0x1_FFFF {
        (x - 0x1_0000) as u16
    } else if -0x1_0000 <= x < 0 {
        (x + 0x1_0000) as u16
    } else {
        (x % 0x1_0000) as u16
    }
}

/// `wrap8` and `wrap16` are the remainders modulo 2^8 and 2^16.
pub proof fn lemma_wrap_is_remainder(x: int)
    ensures
        wrap8(x) == x % 0x100,
        wrap16(x) == x % 0x1_0000,
{
}

/// The 16-bit word with the given high and low halves.
pub open spec fn spec_word(high: u8, low: u8) -> u16 {
    (high * 0x100 + low) as u16
}

/// The upper half of a word.
pub open spec fn spec_high_byte(w: u16) -> u8 {
    (w / 0x100) as u8
}

/// The lower half of a word.
pub open spec fn spec_low_byte(w: u16) -> u8 {
    (w % 0x100) as u8
}

/// The value of a displacement byte read as a two's-complement number.
pub open spec fn signed(offset: u8) -> int {
    if offset >= 0x80 {
        offset - 0x100
    } else {
        offset as int
    }
}

/// Where a relative jump from `pc` with displacement `offset` lands.
pub open spec fn spec_jump_target(pc: u16, offset: u8) -> u16 {
    wrap16(pc + signed(offset))
}

/// INC: the value plus one; Z from the result, N clear, H on a carry out
/// of bit 3, C kept.
pub open spec fn spec_inc(value: u8, f: u8) -> ByteResult {
    ByteResult {
        value: wrap8(value + 1),
        flags: byte_of(wrap8(value + 1) == 0, false, value % 0x10 == 0x0F, spec_carry(f)),
    }
}

/// DEC: the value minus one; Z from the result, N set, H on a borrow
/// from bit 4, C kept.
pub open spec fn spec_dec(value: u8, f: u8) -> ByteResult {
    ByteResult {
        value: wrap8(value - 1),
        flags: byte_of(wrap8(value - 1) == 0, true, value % 0x10 == 0, spec_carry(f)),
    }
}

/// The number that an incoming carry adds.
pub open spec fn carry_in(c: bool) -> int {
    if c {
        1
    } else {
        0
    }
}

/// ADD and ADC: `a + value + c`; Z from the result, N clear, H on a carry
/// out of bit 3, C on a carry out of bit 7.
pub open spec fn spec_add8(a: u8, value: u8, c: bool) -> ByteResult {
    ByteResult {
        value: wrap8(a + value + carry_in(c)),
        flags: byte_of(
            wrap8(a + value + carry_in(c)) == 0,
            false,
            a % 0x10 + value % 0x10 + carry_in(c) > 0x0F,
            a + value + carry_in(c) > 0xFF,
        ),
    }
}

/// SUB: `a - value`; Z from the result, N set, H on a borrow from bit 4,
/// C on a borrow.
pub open spec fn spec_sub8(a: u8, value: u8) -> ByteResult {
    ByteResult {
        value: wrap8(a - value),
        flags: byte_of(wrap8(a - value) == 0, true, a % 0x10 < value % 0x10, a < value),
    }
}

/// ADD HL: `hl + value`; Z kept, N clear, H on a carry out of bit 11,
/// C on a carry out of bit 15.
pub open spec fn spec_add16(hl: u16, value: u16, f: u8) -> WordResult {
    WordResult {
        value: wrap16(hl + value),
        flags: byte_of(
            spec_zero(f),
            false,
            hl % 0x1000 + value % 0x1000 > 0x0FFF,
            hl + value > 0xFFFF,
        ),
    }
}

/// RLCA: rotate left; bit 7 goes to bit 0 and to C; Z, N, H clear.
pub open spec fn spec_rlca(a: u8) -> ByteResult {
    ByteResult {
        value: wrap8(2 * a + a / 0x80),
        flags: byte_of(false, false, false, a >= 0x80),
    }
}

/// RRCA: rotate right; bit 0 goes to bit 7 and to C; Z, N, H clear.
pub open spec fn spec_rrca(a: u8) -> ByteResult {
    ByteResult {
        value: (a / 2 + 0x80 * (a % 2)) as u8,
        flags: byte_of(false, false, false, a % 2 == 1),
    }
}

/// RLA: rotate left through carry; the old C comes in at bit 0, bit 7
/// goes to C; Z, N, H clear.
pub open spec fn spec_rla(a: u8, f: u8) -> ByteResult {
    ByteResult {
        value: wrap8(2 * a + carry_in(spec_carry(f))),
        flags: byte_of(false, false, false, a >= 0x80),
    }
}

/// RRA: rotate right through carry; the old C comes in at bit 7, bit 0
/// goes to C; Z, N, H clear.
pub open spec fn spec_rra(a: u8, f: u8) -> ByteResult {
    ByteResult {
        value: (a / 2 + 0x80 * carry_in(spec_carry(f))) as u8,
        flags: byte_of(false, false, false, a % 2 == 1),
    }
}

/// The decimal correction that DAA picks from the old H and C and from `a`.
pub open spec fn daa_correction(a: u8, f: u8) -> int {
    (if spec_half_carry(f) || a % 0x10 > 9 {
        0x06int
    } else {
        0int
    }) + (if spec_carry(f) || a > 0x99 {
        0x60int
    } else {
        0int
    })
}

/// DAA: the correction is added, or subtracted when N is set; Z from the
/// result, N kept, H clear, C set when the upper digit was corrected.
pub open spec fn spec_daa(a: u8, f: u8) -> ByteResult {
    let corrected = if spec_subtract(f) {
        wrap8(a - daa_correction(a, f))
    } else {
        wrap8(a + daa_correction(a, f))
    };
    ByteResult {
        value: corrected,
        flags: byte_of(corrected == 0, spec_subtract(f), false, spec_carry(f) || a > 0x99),
    }
}

/// CPL: every bit of the value inverted; N and H set, Z and C kept.
pub open spec fn spec_cpl(a: u8, f: u8) -> ByteResult {
    ByteResult { value: (0xFF - a) as u8, flags: byte_of(spec_zero(f), true, true, spec_carry(f)) }
}

/// SCF: C set, N and H clear, Z kept.
pub open spec fn spec_scf(f: u8) -> u8 {
    byte_of(spec_zero(f), false, false, true)
}

/// CCF: C inverted, N and H clear, Z kept.
pub open spec fn spec_ccf(f: u8) -> u8 {
    byte_of(spec_zero(f), false, false, !spec_carry(f))
}

/// Every flag byte that an operation leaves has a zero lower nibble.
pub proof fn lemma_flags_well_formed(a: u8, value: u8, c: bool, hl: u16, word: u16, f: u8)
    ensures
        well_formed(spec_inc(value, f).flags),
        well_formed(spec_dec(value, f).flags),
        well_formed(spec_add8(a, value, c).flags),
        well_formed(spec_sub8(a, value).flags),
        well_formed(spec_add16(hl, word, f).flags),
        well_formed(spec_rlca(a).flags),
        well_formed(spec_rrca(a).flags),
        well_formed(spec_rla(a, f).flags),
        well_formed(spec_rra(a, f).flags),
        well_formed(spec_daa(a, f).flags),
        well_formed(spec_cpl(a, f).flags),
        well_formed(spec_scf(f)),
        well_formed(spec_ccf(f)),
{
}

proof fn lemma_nibble(x: u8)
    by (bit_vector)
    ensures
        x & 0x0F == x % 0x10,
{
}

proof fn lemma_low_twelve(x: u16)
    by (bit_vector)
    ensures
        x & 0x0FFF == x % 0x1000,
{
}

proof fn lemma_word(high: u8, low: u8)
    by (bit_vector)
    ensures
        ((high as u16) << 8) | (low as u16) == (high as u16) * 0x100 + (low as u16),
{
}

proof fn lemma_halves(w: u16)
    by (bit_vector)
    ensures
        w >> 8 == w / 0x100,
        w & 0xFF == w % 0x100,
{
}

proof fn lemma_rotate_left(a: u8, bit: u8)
    by (bit_vector)
    requires
        bit <= 1,
    ensures
        (a & 0x80) >> 7 == a / 0x80,
        (a << 1) | bit == (if a >= 0x80 {
            2 * a + bit - 0x100
        } else {
            2 * a + bit
        }),
{
}

proof fn lemma_rotate_right(a: u8, bit: u8)
    by (bit_vector)
    requires
        bit <= 1,
    ensures
        a & 0x01 == a % 2,
        (a >> 1) | (bit << 7) == a / 2 + 0x80 * bit,
{
}

proof fn lemma_carry_bit(f: u8)
    by (bit_vector)
    ensures
        (f & 0x10) >> 4 == (if f % 0x20 >= 0x10 { 1u8 } else { 0u8 }),
{
}

proof fn lemma_complement(a: u8)
    by (bit_vector)
    ensures
        !a == 0xFF - a,
{
}

/// Composes a word from its two halves.
#[verifier::when_used_as_spec(spec_word)]
pub fn word(high: u8, low: u8) -> (w: u16)
    ensures
        w == spec_word(high, low),
{
    proof {
        lemma_word(high, low);
    }
    ((high as u16) << 8) | (low as u16)
}

/// The upper half of a word.
#[verifier::when_used_as_spec(spec_high_byte)]
pub fn high_byte(w: u16) -> (b: u8)
    ensures
        b == spec_high_byte(w),
{
    proof {
        lemma_halves(w);
    }
    (w >> 8) as u8
}

/// The lower half of a word.
#[verifier::when_used_as_spec(spec_low_byte)]
pub fn low_byte(w: u16) -> (b: u8)
    ensures
        b == spec_low_byte(w),
{
    proof {
        lemma_halves(w);
    }
    (w & 0xFF) as u8
}

/// The address a relative jump reaches: `pc` plus the signed displacement,
/// modulo 2^16.
#[verifier::when_used_as_spec(spec_jump_target)]
pub fn jump_target(pc: u16, offset: u8) -> (target: u16)
    ensures
        target == spec_jump_target(pc, offset),
{
    if offset < 0x80 {
        pc.wrapping_add(offset as u16)
    } else {
        pc.wrapping_sub(0x100 - offset as u16)
    }
}

/// INC on a byte.
#[verifier::when_used_as_spec(spec_inc)]
pub fn inc(value: u8, f: u8) -> (r: ByteResult)
    ensures
        r == spec_inc(value, f),
{
    proof {
        lemma_nibble(value);
    }
    let result = value.wrapping_add(1);
    let half = (value & 0x0F) == 0x0F;
    ByteResult { value: result, flags: pack(result == 0, false, half, carry(f)) }
}

/// DEC on a byte.
#[verifier::when_used_as_spec(spec_dec)]
pub fn dec(value: u8, f: u8) -> (r: ByteResult)
    ensures
        r == spec_dec(value, f),
{
    proof {
        lemma_nibble(value);
    }
    let result = value.wrapping_sub(1);
    let half = (value & 0x0F) == 0x00;
    ByteResult { value: result, flags: pack(result == 0, true, half, carry(f)) }
}

/// Adds `value` and an incoming carry to `a`.
#[verifier::when_used_as_spec(spec_add8)]
pub fn add8(a: u8, value: u8, c: bool) -> (r: ByteResult)
    ensures
        r == spec_add8(a, value, c),
{
    proof {
        lemma_nibble(a);
        lemma_nibble(value);
    }
    let bit: u8 = if c {
        1
    } else {
        0
    };
    let result = a.wrapping_add(value).wrapping_add(bit);
    let half = (a & 0x0F) + (value & 0x0F) + bit > 0x0F;
    let full = (a as u16) + (value as u16) + (bit as u16) > 0xFF;
    ByteResult { value: result, flags: pack(result == 0, false, half, full) }
}

/// Subtracts `value` from `a`.
#[verifier::when_used_as_spec(spec_sub8)]
pub fn sub8(a: u8, value: u8) -> (r: ByteResult)
    ensures
        r == spec_sub8(a, value),
{
    proof {
        lemma_nibble(a);
        lemma_nibble(value);
    }
    let result = a.wrapping_sub(value);
    let half = (a & 0x0F) < (value & 0x0F);
    ByteResult { value: result, flags: pack(result == 0, true, half, a < value) }
}

/// Adds `value` to the 16-bit `hl`.
#[verifier::when_used_as_spec(spec_add16)]
pub fn add16(hl: u16, value: u16, f: u8) -> (r: WordResult)
    ensures
        r == spec_add16(hl, value, f),
{
    proof {
        lemma_low_twelve(hl);
        lemma_low_twelve(value);
    }
    let result = hl.wrapping_add(value);
    let half = (hl & 0x0FFF) + (value & 0x0FFF) > 0x0FFF;
    let full = (hl as u32) + (value as u32) > 0xFFFF;
    WordResult { value: result, flags: pack(zero(f), false, half, full) }
}

/// RLCA on the accumulator.
#[verifier::when_used_as_spec(spec_rlca)]
pub fn rlca(a: u8) -> (r: ByteResult)
    ensures
        r == spec_rlca(a),
{
    let out = (a & 0x80) >> 7;
    proof {
        lemma_rotate_left(a, (a / 0x80) as u8);
    }
    ByteResult { value: (a << 1) | out, flags: pack(false, false, false, out == 1) }
}

/// RRCA on the accumulator.
#[verifier::when_used_as_spec(spec_rrca)]
pub fn rrca(a: u8) -> (r: ByteResult)
    ensures
        r == spec_rrca(a),
{
    let out = a & 0x01;
    proof {
        lemma_rotate_right(a, (a % 2) as u8);
    }
    ByteResult { value: (a >> 1) | (out << 7), flags: pack(false, false, false, out == 1) }
}

/// RLA on the accumulator.
#[verifier::when_used_as_spec(spec_rla)]
pub fn rla(a: u8, f: u8) -> (r: ByteResult)
    ensures
        r == spec_rla(a, f),
{
    let incoming = (f & 0x10) >> 4;
    let out = (a & 0x80) >> 7;
    proof {
        lemma_carry_bit(f);
        lemma_rotate_left(a, incoming);
    }
    ByteResult { value: (a << 1) | incoming, flags: pack(false, false, false, out == 1) }
}

/// RRA on the accumulator.
#[verifier::when_used_as_spec(spec_rra)]
pub fn rra(a: u8, f: u8) -> (r: ByteResult)
    ensures
        r == spec_rra(a, f),
{
    let incoming = (f & 0x10) >> 4;
    let out = a & 0x01;
    proof {
        lemma_carry_bit(f);
        lemma_rotate_right(a, incoming);
    }
    ByteResult { value: (a >> 1) | (incoming << 7), flags: pack(false, false, false, out == 1) }
}

/// DAA on the accumulator.
#[verifier::when_used_as_spec(spec_daa)]
pub fn daa(a: u8, f: u8) -> (r: ByteResult)
    ensures
        r == spec_daa(a, f),
{
    proof {
        lemma_nibble(a);
    }
    let mut correction: u8 = 0;
    let mut upper = false;
    if half_carry(f) || (a & 0x0F) > 9 {
        correction = correction + 0x06;
    }
    if carry(f) || a > 0x99 {
        correction = correction + 0x60;
        upper = true;
    }
    let result = if subtract(f) {
        a.wrapping_sub(correction)
    } else {
        a.wrapping_add(correction)
    };
    ByteResult { value: result, flags: pack(result == 0, subtract(f), false, upper) }
}

/// CPL on the accumulator.
#[verifier::when_used_as_spec(spec_cpl)]
pub fn cpl(a: u8, f: u8) -> (r: ByteResult)
    ensures
        r == spec_cpl(a, f),
{
    proof {
        lemma_complement(a);
    }
    ByteResult { value: !a, flags: pack(zero(f), true, true, carry(f)) }
}

/// SCF on the flag byte.
#[verifier::when_used_as_spec(spec_scf)]
pub fn scf(f: u8) -> (g: u8)
    ensures
        g == spec_scf(f),
{
    pack(zero(f), false, false, true)
}

/// CCF on the flag byte.
#[verifier::when_used_as_spec(spec_ccf)]
pub fn ccf(f: u8) -> (g: u8)
    ensures
        g == spec_ccf(f),
{
    pack(zero(f), false, false, !carry(f))
}

} // verus!
