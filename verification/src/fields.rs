//! Bit-field extraction from encoded bytes and the numeric conversions the
//! decoders need: sign-extension of a byte and little-endian assembly of a
//! signed 16-bit value.

use vstd::prelude::*;

verus! {

/// The 2-bit mode field of a mod/reg/rm byte (its top two bits).
pub open spec fn spec_mode_field(b: u8) -> u8 {
    b >> 6
}

/// The 3-bit reg field of a mod/reg/rm byte (bits 3 to 5).
pub open spec fn spec_reg_field(b: u8) -> u8 {
    (b >> 3) & 7
}

/// The 3-bit rm field of a mod/reg/rm byte (its low three bits).
pub open spec fn spec_rm_field(b: u8) -> u8 {
    b & 7
}

/// The value of a byte read as a signed 8-bit quantity.
pub open spec fn spec_signed8(b: u8) -> int {
    if b >= 128 {
        b - 256
    } else {
        b as int
    }
}

/// The value of two little-endian bytes read as a signed 16-bit quantity.
pub open spec fn spec_signed16_le(lo: u8, hi: u8) -> int {
    let unsigned = lo + 256 * (hi as int);
    if unsigned >= 32768 {
        unsigned - 65536
    } else {
        unsigned
    }
}

/// The mode field, executable.
pub fn mode_field(b: u8) -> (m: u8)
    ensures
        m == spec_mode_field(b),
        m < 4,
{
    proof {
        assert(b >> 6 < 4) by (bit_vector);
    }
    b >> 6
}

/// The reg field, executable.
pub fn reg_field(b: u8) -> (r: u8)
    ensures
        r == spec_reg_field(b),
        r < 8,
{
    proof {
        assert((b >> 3) & 7 < 8) by (bit_vector);
    }
    (b >> 3) & 7
}

/// The rm field, executable.
pub fn rm_field(b: u8) -> (r: u8)
    ensures
        r == spec_rm_field(b),
        r < 8,
{
    proof {
        assert(b & 7 < 8) by (bit_vector);
    }
    b & 7
}

/// Sign-extends a byte to a 16-bit value.
pub fn sign_extend_byte(b: u8) -> (v: i16)
    ensures
        v as int == spec_signed8(b),
{
    if b >= 128 {
        (b as i16) - 256
    } else {
        b as i16
    }
}

/// Reads a byte as a signed 8-bit value.
pub fn byte_as_signed(b: u8) -> (v: i8)
    ensures
        v as int == spec_signed8(b),
{
    if b >= 128 {
        ((b as i16) - 256) as i8
    } else {
        b as i8
    }
}

/// Assembles two little-endian bytes into a signed 16-bit value.
pub fn signed16_from_le(lo: u8, hi: u8) -> (v: i16)
    ensures
        v as int == spec_signed16_le(lo, hi),
{
    let unsigned: u32 = lo as u32 + 256 * (hi as u32);
    if unsigned >= 32768 {
        let magnitude: u32 = 65536 - unsigned;
        (0 - magnitude as i32) as i16
    } else {
        unsigned as i16
    }
}

} // verus!
