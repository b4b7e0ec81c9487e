//! The addressing-mode resolver: from a mod/reg/rm byte and the bytes that
//! follow it, decides whether the rm-field operand is a register, a memory
//! reference with 0, 1 or 2 displacement bytes, or a direct 16-bit address,
//! and how many displacement bytes that consumes.

use vstd::prelude::*;

use crate::fields::{
    mode_field, rm_field, sign_extend_byte, signed16_from_le, spec_mode_field,
    spec_rm_field, spec_signed16_le, spec_signed8,
};
use crate::instruction::{AddressingMode, DecodeError, Operand};

verus! {

/// The addressing mode selected by the mode and rm fields of the mod/reg/rm
/// byte `b`: the special pair mode 00 / rm 110 addresses a direct 16-bit
/// address, not a base-register expression.
pub open spec fn spec_addressing_mode(b: u8) -> AddressingMode {
    if spec_mode_field(b) == 0 {
        if spec_rm_field(b) == 6 {
            AddressingMode::MemoryDirectAddress
        } else {
            AddressingMode::MemoryNoDisplacement
        }
    } else if spec_mode_field(b) == 1 {
        AddressingMode::MemoryDisplacement8
    } else if spec_mode_field(b) == 2 {
        AddressingMode::MemoryDisplacement16
    } else {
        AddressingMode::RegisterDirect
    }
}

/// How many displacement bytes each addressing mode consumes.
pub open spec fn spec_displacement_len(m: AddressingMode) -> usize {
    match m {
        AddressingMode::RegisterDirect => 0,
        AddressingMode::MemoryNoDisplacement => 0,
        AddressingMode::MemoryDisplacement8 => 1,
        AddressingMode::MemoryDisplacement16 => 2,
        AddressingMode::MemoryDirectAddress => 2,
    }
}

/// The rm-field operand of the instruction starting at `pos`, whose
/// mod/reg/rm byte stands at `pos + 1`, together with the number of
/// displacement bytes consumed. `wide` selects the register name table in
/// register-direct mode. Fails when the displacement bytes run past the end
/// of the buffer.
pub open spec fn spec_resolve_rm(buf: Seq<u8>, pos: int, wide: bool) -> Result<
    (Operand, usize),
    DecodeError,
> {
    let modrm = buf[pos + 1];
    let rm = spec_rm_field(modrm);
    match spec_addressing_mode(modrm) {
        AddressingMode::RegisterDirect => Ok(
            (Operand::Register { wide, index: rm }, 0usize),
        ),
        AddressingMode::MemoryNoDisplacement => Ok(
            (Operand::Memory { base: rm, disp: None }, 0usize),
        ),
        AddressingMode::MemoryDisplacement8 => if pos + 3 > buf.len() {
            Err(DecodeError::TruncatedInstruction { offset: pos as usize })
        } else {
            Ok(
                (
                    Operand::Memory { base: rm, disp: Some(spec_signed8(buf[pos + 2]) as i16) },
                    1usize,
                ),
            )
        },
        AddressingMode::MemoryDisplacement16 => if pos + 4 > buf.len() {
            Err(DecodeError::TruncatedInstruction { offset: pos as usize })
        } else {
            Ok(
                (
                    Operand::Memory {
                        base: rm,
                        disp: Some(spec_signed16_le(buf[pos + 2], buf[pos + 3]) as i16),
                    },
                    2usize,
                ),
            )
        },
        AddressingMode::MemoryDirectAddress => if pos + 4 > buf.len() {
            Err(DecodeError::TruncatedInstruction { offset: pos as usize })
        } else {
            Ok(
                (
                    Operand::DirectAddress {
                        addr: spec_signed16_le(buf[pos + 2], buf[pos + 3]) as i16,
                    },
                    2usize,
                ),
            )
        },
    }
}

/// A resolved rm-field operand consumes exactly the displacement bytes of
/// its addressing mode, and those bytes lie within the buffer.
pub proof fn lemma_resolve_rm_bounds(buf: Seq<u8>, pos: int, wide: bool)
    requires
        0 <= pos,
        pos + 2 <= buf.len(),
    ensures
        spec_resolve_rm(buf, pos, wide) matches Ok((o, disp_len)) ==> disp_len
            == spec_displacement_len(spec_addressing_mode(buf[pos + 1])) && pos + 2 + disp_len
            <= buf.len(),
{
}

/// Resolves the rm-field operand, executable.
pub fn resolve_rm(buf: &[u8], pos: usize, wide: bool) -> (r: Result<(Operand, usize), DecodeError>)
    requires
        pos + 2 <= buf@.len(),
    ensures
        r == spec_resolve_rm(buf@, pos as int, wide),
{
    let n = buf.len();
    let modrm = buf[pos + 1];
    let mode = mode_field(modrm);
    let rm = rm_field(modrm);

    if mode == 3 {
        Ok((Operand::Register { wide, index: rm }, 0))
    } else if mode == 0 {
        if rm == 6 {
            if n - pos < 4 {
                Err(DecodeError::TruncatedInstruction { offset: pos })
            } else {
                let addr = signed16_from_le(buf[pos + 2], buf[pos + 3]);
                Ok((Operand::DirectAddress { addr }, 2))
            }
        } else {
            Ok((Operand::Memory { base: rm, disp: None }, 0))
        }
    } else if mode == 1 {
        if n - pos < 3 {
            Err(DecodeError::TruncatedInstruction { offset: pos })
        } else {
            let disp = sign_extend_byte(buf[pos + 2]);
            Ok((Operand::Memory { base: rm, disp: Some(disp) }, 1))
        }
    } else {
        if n - pos < 4 {
            Err(DecodeError::TruncatedInstruction { offset: pos })
        } else {
            let disp = signed16_from_le(buf[pos + 2], buf[pos + 3]);
            Ok((Operand::Memory { base: rm, disp: Some(disp) }, 2))
        }
    }
}

/// Classifies the addressing mode of a mod/reg/rm byte, executable.
pub fn addressing_mode_of(b: u8) -> (m: AddressingMode)
    ensures
        m == spec_addressing_mode(b),
{
    let mode = mode_field(b);
    let rm = rm_field(b);
    if mode == 0 {
        if rm == 6 {
            AddressingMode::MemoryDirectAddress
        } else {
            AddressingMode::MemoryNoDisplacement
        }
    } else if mode == 1 {
        AddressingMode::MemoryDisplacement8
    } else if mode == 2 {
        AddressingMode::MemoryDisplacement16
    } else {
        AddressingMode::RegisterDirect
    }
}

} // verus!
