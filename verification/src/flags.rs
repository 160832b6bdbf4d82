//! The flag register F: four condition flags in the upper nibble, zeros below.

use vstd::prelude::*;

verus! {

/// Mask of the zero flag (bit 7).
pub const ZERO: u8 = 0x80;

/// Mask of the subtract flag (bit 6).
pub const SUBTRACT: u8 = 0x40;

/// Mask of the half-carry flag (bit 5).
pub const HALF_CARRY: u8 = 0x20;

/// Mask of the carry flag (bit 4).
pub const CARRY: u8 = 0x10;

/// The flag byte that holds exactly the given four flags.
pub open spec fn byte_of(z: bool, n: bool, h: bool, c: bool) -> u8 {
    ((if z { 0x80int } else { 0int }) + (if n { 0x40int } else { 0int })
        + (if h { 0x20int } else { 0int }) + (if c { 0x10int } else { 0int })) as u8
}

/// Bit 7 of `f`.
pub open spec fn spec_zero(f: u8) -> bool {
    f >= 0x80
}

/// Bit 6 of `f`.
pub open spec fn spec_subtract(f: u8) -> bool {
    f % 0x80 >= 0x40
}

/// Bit 5 of `f`.
pub open spec fn spec_half_carry(f: u8) -> bool {
    f % 0x40 >= 0x20
}

/// Bit 4 of `f`.
pub open spec fn spec_carry(f: u8) -> bool {
    f % 0x20 >= 0x10
}

/// A flag byte is well formed when its lower nibble is zero.
pub open spec fn well_formed(f: u8) -> bool {
    f % 0x10 == 0
}

proof fn lemma_flag_bits(f: u8)
    by (bit_vector)
    ensures
        (f & 0x80 != 0) == (f >= 0x80),
        (f & 0x40 != 0) == (f % 0x80 >= 0x40),
        (f & 0x20 != 0) == (f % 0x40 >= 0x20),
        (f & 0x10 != 0) == (f % 0x20 >= 0x10),
{
}

/// Builds the flag byte from the four flags.
pub fn pack(z: bool, n: bool, h: bool, c: bool) -> (f: u8)
    ensures
        f == byte_of(z, n, h, c),
{
    let mut f: u8 = 0;
    if z {
        f = f + ZERO;
    }
    if n {
        f = f + SUBTRACT;
    }
    if h {
        f = f + HALF_CARRY;
    }
    if c {
        f = f + CARRY;
    }
    f
}

/// Whether the zero flag is set in `f`.
#[verifier::when_used_as_spec(spec_zero)]
pub fn zero(f: u8) -> (set: bool)
    ensures
        set == spec_zero(f),
{
    proof {
        lemma_flag_bits(f);
    }
    f & ZERO != 0
}

/// Whether the subtract flag is set in `f`.
#[verifier::when_used_as_spec(spec_subtract)]
pub fn subtract(f: u8) -> (set: bool)
    ensures
        set == spec_subtract(f),
{
    proof {
        lemma_flag_bits(f);
    }
    f & SUBTRACT != 0
}

/// Whether the half-carry flag is set in `f`.
#[verifier::when_used_as_spec(spec_half_carry)]
pub fn half_carry(f: u8) -> (set: bool)
    ensures
        set == spec_half_carry(f),
{
    proof {
        lemma_flag_bits(f);
    }
    f & HALF_CARRY != 0
}

/// Whether the carry flag is set in `f`.
#[verifier::when_used_as_spec(spec_carry)]
pub fn carry(f: u8) -> (set: bool)
    ensures
        set == spec_carry(f),
{
    proof {
        lemma_flag_bits(f);
    }
    f & CARRY != 0
}

/// Reading a packed byte gives back the four flags, and the byte is well formed.
pub proof fn lemma_pack_unpack(z: bool, n: bool, h: bool, c: bool)
    ensures
        spec_zero(byte_of(z, n, h, c)) == z,
        spec_subtract(byte_of(z, n, h, c)) == n,
        spec_half_carry(byte_of(z, n, h, c)) == h,
        spec_carry(byte_of(z, n, h, c)) == c,
        well_formed(byte_of(z, n, h, c)),
{
}

/// A well-formed byte is the packing of its own four flags.
pub proof fn lemma_unpack_pack(f: u8)
    requires
        well_formed(f),
    ensures
        byte_of(spec_zero(f), spec_subtract(f), spec_half_carry(f), spec_carry(f)) == f,
{
}

} // verus!
