//! The per-family instruction decoders and the decode loop. Each decoder
//! consumes the bytes of one instruction starting at a cursor position and
//! produces the decoded record together with the number of bytes consumed;
//! the loop repeats this until the buffer is exhausted or a step fails.

use vstd::prelude::*;

use crate::classify::{classify, spec_classify};
use crate::fields::{
    byte_as_signed, reg_field, sign_extend_byte, signed16_from_le, spec_reg_field, spec_signed16_le,
    spec_signed8,
};
use crate::instruction::{
    ArithOp, BranchMnemonic, DecodeError, DecodedInstruction, OpcodeClass, Operand, TwoOpMnemonic,
};
use crate::resolve::{lemma_resolve_rm_bounds, resolve_rm, spec_resolve_rm};

verus! {

/// The register/memory-with-register form shared by the move and arithmetic
/// families: a direction flag picks which of the reg-field operand and the
/// rm-field operand is the destination, and a width flag picks the register
/// name table. Consumes 2 bytes plus the displacement.
pub open spec fn spec_decode_reg_rm_form(buf: Seq<u8>, pos: int, mnemonic: TwoOpMnemonic) -> Result<
    DecodedInstruction,
    DecodeError,
> {
    if pos + 2 > buf.len() {
        Err(DecodeError::TruncatedInstruction { offset: pos as usize })
    } else {
        let b0 = buf[pos];
        let b1 = buf[pos + 1];
        let to_register = (b0 >> 1) & 1 == 1;
        let wide = b0 & 1 == 1;
        let reg_operand = Operand::Register { wide, index: spec_reg_field(b1) };
        match spec_resolve_rm(buf, pos, wide) {
            Err(e) => Err(e),
            Ok((rm_operand, disp_len)) => {
                let length = (2 + disp_len) as usize;
                if to_register {
                    Ok(
                        DecodedInstruction::TwoOperand {
                            mnemonic,
                            dest: reg_operand,
                            src: rm_operand,
                            length,
                        },
                    )
                } else {
                    Ok(
                        DecodedInstruction::TwoOperand {
                            mnemonic,
                            dest: rm_operand,
                            src: reg_operand,
                            length,
                        },
                    )
                }
            },
        }
    }
}

/// Move immediate to register: the width flag lives in bit 3 of the opcode
/// byte and the register index in its low 3 bits; the immediate is 1 byte,
/// or 2 little-endian bytes when wide. Consumes 2 or 3 bytes.
pub open spec fn spec_decode_mov_immediate(buf: Seq<u8>, pos: int) -> Result<
    DecodedInstruction,
    DecodeError,
> {
    if pos + 2 > buf.len() {
        Err(DecodeError::TruncatedInstruction { offset: pos as usize })
    } else {
        let b0 = buf[pos];
        let wide = b0 & 8 == 8;
        let reg = b0 & 7;
        if wide {
            if pos + 3 > buf.len() {
                Err(DecodeError::TruncatedInstruction { offset: pos as usize })
            } else {
                Ok(
                    DecodedInstruction::TwoOperand {
                        mnemonic: TwoOpMnemonic::Mov,
                        dest: Operand::Register { wide: true, index: reg },
                        src: Operand::Immediate {
                            value: spec_signed16_le(buf[pos + 1], buf[pos + 2]) as i16,
                        },
                        length: 3usize,
                    },
                )
            }
        } else {
            Ok(
                DecodedInstruction::TwoOperand {
                    mnemonic: TwoOpMnemonic::Mov,
                    dest: Operand::Register { wide: false, index: reg },
                    src: Operand::Immediate { value: spec_signed8(buf[pos + 1]) as i16 },
                    length: 2usize,
                },
            )
        }
    }
}

/// Arithmetic immediate to register/memory: the operation comes from the
/// 3-bit sub-code of the mod/reg/rm byte; the immediate is 1 byte, sign
/// extended, unless the sign-extend flag is clear and the width flag set, in
/// which case it is 2 little-endian bytes. In register mode the rm field
/// always indexes the 16-bit register table. Consumes 2 bytes plus the
/// displacement plus the immediate.
pub open spec fn spec_decode_arith_immediate_rm(buf: Seq<u8>, pos: int) -> Result<
    DecodedInstruction,
    DecodeError,
> {
    if pos + 2 > buf.len() {
        Err(DecodeError::TruncatedInstruction { offset: pos as usize })
    } else {
        let b0 = buf[pos];
        let b1 = buf[pos + 1];
        let sub = spec_reg_field(b1);
        if sub != 0 && sub != 5 && sub != 7 {
            Err(DecodeError::InvalidSubOperation { code: sub, offset: pos as usize })
        } else {
            let op = if sub == 0 {
                ArithOp::Add
            } else if sub == 5 {
                ArithOp::Sub
            } else {
                ArithOp::Cmp
            };
            let sign_extend_flag = (b0 >> 1) & 1 == 1;
            let wide = b0 & 1 == 1;
            let wide_immediate = !sign_extend_flag && wide;
            match spec_resolve_rm(buf, pos, true) {
                Err(e) => Err(e),
                Ok((rm_operand, disp_len)) => {
                    let imm_pos = pos + 2 + disp_len;
                    let imm_len: int = if wide_immediate {
                        2
                    } else {
                        1
                    };
                    if imm_pos + imm_len > buf.len() {
                        Err(DecodeError::TruncatedInstruction { offset: pos as usize })
                    } else {
                        let value = if wide_immediate {
                            spec_signed16_le(buf[imm_pos], buf[imm_pos + 1]) as i16
                        } else {
                            spec_signed8(buf[imm_pos]) as i16
                        };
                        Ok(
                            DecodedInstruction::TwoOperand {
                                mnemonic: TwoOpMnemonic::Arith(op),
                                dest: rm_operand,
                                src: Operand::Immediate { value },
                                length: (2 + disp_len + imm_len) as usize,
                            },
                        )
                    }
                },
            }
        }
    }
}

/// Arithmetic immediate to accumulator: the destination is the fixed
/// accumulator of the width the flag selects, and the immediate is 1 byte,
/// sign extended, or 2 little-endian bytes when wide. Consumes 2 or 3 bytes.
pub open spec fn spec_decode_arith_immediate_acc(buf: Seq<u8>, pos: int, op: ArithOp) -> Result<
    DecodedInstruction,
    DecodeError,
> {
    if pos + 2 > buf.len() {
        Err(DecodeError::TruncatedInstruction { offset: pos as usize })
    } else {
        let wide = buf[pos] & 1 == 1;
        if wide {
            if pos + 3 > buf.len() {
                Err(DecodeError::TruncatedInstruction { offset: pos as usize })
            } else {
                Ok(
                    DecodedInstruction::TwoOperand {
                        mnemonic: TwoOpMnemonic::Arith(op),
                        dest: Operand::Accumulator { wide: true },
                        src: Operand::Immediate {
                            value: spec_signed16_le(buf[pos + 1], buf[pos + 2]) as i16,
                        },
                        length: 3usize,
                    },
                )
            }
        } else {
            Ok(
                DecodedInstruction::TwoOperand {
                    mnemonic: TwoOpMnemonic::Arith(op),
                    dest: Operand::Accumulator { wide: false },
                    src: Operand::Immediate { value: spec_signed8(buf[pos + 1]) as i16 },
                    length: 2usize,
                },
            )
        }
    }
}

/// Conditional jump or loop: exactly one signed displacement byte follows
/// the opcode, kept as a raw value, never resolved to a target. Consumes 2
/// bytes always.
pub open spec fn spec_decode_branch(buf: Seq<u8>, pos: int, mnemonic: BranchMnemonic) -> Result<
    DecodedInstruction,
    DecodeError,
> {
    if pos + 2 > buf.len() {
        Err(DecodeError::TruncatedInstruction { offset: pos as usize })
    } else {
        Ok(
            DecodedInstruction::Branch {
                mnemonic,
                offset: spec_signed8(buf[pos + 1]) as i8,
                length: 2usize,
            },
        )
    }
}

/// One decode step: classifies the byte at `pos` and applies the matching
/// family decoder; an unclassified byte fails the step, since without the
/// instruction's length no later offset is trustworthy.
pub open spec fn spec_decode(buf: Seq<u8>, pos: int) -> Result<DecodedInstruction, DecodeError> {
    match spec_classify(buf[pos]) {
        OpcodeClass::MoveRegisterOrMemory => spec_decode_reg_rm_form(buf, pos, TwoOpMnemonic::Mov),
        OpcodeClass::MoveImmediateToRegister => spec_decode_mov_immediate(buf, pos),
        OpcodeClass::ArithmeticRegisterOrMemory(op) => spec_decode_reg_rm_form(
            buf,
            pos,
            TwoOpMnemonic::Arith(op),
        ),
        OpcodeClass::ArithmeticImmediateToRegisterOrMemory => spec_decode_arith_immediate_rm(
            buf,
            pos,
        ),
        OpcodeClass::ArithmeticImmediateToAccumulator(op) => spec_decode_arith_immediate_acc(
            buf,
            pos,
            op,
        ),
        OpcodeClass::ConditionalJump(cond) => spec_decode_branch(
            buf,
            pos,
            BranchMnemonic::Jump(cond),
        ),
        OpcodeClass::LoopInstruction(kind) => spec_decode_branch(
            buf,
            pos,
            BranchMnemonic::Loop(kind),
        ),
        OpcodeClass::Unclassified => Err(
            DecodeError::UnclassifiedOpcode { byte: buf[pos], offset: pos as usize },
        ),
    }
}

/// A successful decode step consumes at least 1 and at most 6 bytes, and
/// never consumes past the end of the buffer.
pub proof fn lemma_decode_step_bounds(buf: Seq<u8>, pos: int)
    requires
        0 <= pos < buf.len(),
        spec_decode(buf, pos) is Ok,
    ensures
        1 <= spec_decode(buf, pos)->Ok_0.len_bytes() <= 6,
        pos + spec_decode(buf, pos)->Ok_0.len_bytes() <= buf.len(),
{
    lemma_resolve_rm_bounds(buf, pos, buf[pos] & 1 == 1);
    lemma_resolve_rm_bounds(buf, pos, true);
}

/// Decodes the register/memory-with-register form, executable.
pub fn decode_reg_rm_form(buf: &[u8], pos: usize, mnemonic: TwoOpMnemonic) -> (r: Result<
    DecodedInstruction,
    DecodeError,
>)
    requires
        pos < buf@.len(),
    ensures
        r == spec_decode_reg_rm_form(buf@, pos as int, mnemonic),
{
    let n = buf.len();
    if n - pos < 2 {
        return Err(DecodeError::TruncatedInstruction { offset: pos });
    }
    let b0 = buf[pos];
    let b1 = buf[pos + 1];
    let to_register = (b0 >> 1) & 1 == 1;
    let wide = b0 & 1 == 1;
    let reg_operand = Operand::Register { wide, index: reg_field(b1) };
    match resolve_rm(buf, pos, wide) {
        Err(e) => Err(e),
        Ok((rm_operand, disp_len)) => {
            proof {
                lemma_resolve_rm_bounds(buf@, pos as int, wide);
            }
            let length = 2 + disp_len;
            if to_register {
                Ok(
                    DecodedInstruction::TwoOperand {
                        mnemonic,
                        dest: reg_operand,
                        src: rm_operand,
                        length,
                    },
                )
            } else {
                Ok(
                    DecodedInstruction::TwoOperand {
                        mnemonic,
                        dest: rm_operand,
                        src: reg_operand,
                        length,
                    },
                )
            }
        },
    }
}

/// Decodes a move of an immediate into a register, executable.
pub fn decode_mov_immediate(buf: &[u8], pos: usize) -> (r: Result<DecodedInstruction, DecodeError>)
    requires
        pos < buf@.len(),
    ensures
        r == spec_decode_mov_immediate(buf@, pos as int),
{
    let n = buf.len();
    if n - pos < 2 {
        return Err(DecodeError::TruncatedInstruction { offset: pos });
    }
    let b0 = buf[pos];
    let reg = b0 & 7;
    if b0 & 8 == 8 {
        if n - pos < 3 {
            Err(DecodeError::TruncatedInstruction { offset: pos })
        } else {
            let value = signed16_from_le(buf[pos + 1], buf[pos + 2]);
            Ok(
                DecodedInstruction::TwoOperand {
                    mnemonic: TwoOpMnemonic::Mov,
                    dest: Operand::Register { wide: true, index: reg },
                    src: Operand::Immediate { value },
                    length: 3,
                },
            )
        }
    } else {
        let value = sign_extend_byte(buf[pos + 1]);
        Ok(
            DecodedInstruction::TwoOperand {
                mnemonic: TwoOpMnemonic::Mov,
                dest: Operand::Register { wide: false, index: reg },
                src: Operand::Immediate { value },
                length: 2,
            },
        )
    }
}

/// Decodes an arithmetic instruction with an immediate source and a
/// register-or-memory destination, executable.
pub fn decode_arith_immediate_rm(buf: &[u8], pos: usize) -> (r: Result<
    DecodedInstruction,
    DecodeError,
>)
    requires
        pos < buf@.len(),
    ensures
        r == spec_decode_arith_immediate_rm(buf@, pos as int),
{
    let n = buf.len();
    if n - pos < 2 {
        return Err(DecodeError::TruncatedInstruction { offset: pos });
    }
    let b0 = buf[pos];
    let b1 = buf[pos + 1];
    let sub = reg_field(b1);
    let op = if sub == 0 {
        ArithOp::Add
    } else if sub == 5 {
        ArithOp::Sub
    } else if sub == 7 {
        ArithOp::Cmp
    } else {
        return Err(DecodeError::InvalidSubOperation { code: sub, offset: pos });
    };
    let sign_extend_flag = (b0 >> 1) & 1 == 1;
    let wide = b0 & 1 == 1;
    let wide_immediate = !sign_extend_flag && wide;
    match resolve_rm(buf, pos, true) {
        Err(e) => Err(e),
        Ok((rm_operand, disp_len)) => {
            proof {
                lemma_resolve_rm_bounds(buf@, pos as int, true);
            }
            let imm_pos = pos + 2 + disp_len;
            let imm_len: usize = if wide_immediate {
                2
            } else {
                1
            };
            if n - imm_pos < imm_len {
                Err(DecodeError::TruncatedInstruction { offset: pos })
            } else {
                let value = if wide_immediate {
                    signed16_from_le(buf[imm_pos], buf[imm_pos + 1])
                } else {
                    sign_extend_byte(buf[imm_pos])
                };
                Ok(
                    DecodedInstruction::TwoOperand {
                        mnemonic: TwoOpMnemonic::Arith(op),
                        dest: rm_operand,
                        src: Operand::Immediate { value },
                        length: 2 + disp_len + imm_len,
                    },
                )
            }
        },
    }
}

/// Decodes an arithmetic instruction with an immediate source and the
/// accumulator as destination, executable.
pub fn decode_arith_immediate_acc(buf: &[u8], pos: usize, op: ArithOp) -> (r: Result<
    DecodedInstruction,
    DecodeError,
>)
    requires
        pos < buf@.len(),
    ensures
        r == spec_decode_arith_immediate_acc(buf@, pos as int, op),
{
    let n = buf.len();
    if n - pos < 2 {
        return Err(DecodeError::TruncatedInstruction { offset: pos });
    }
    if buf[pos] & 1 == 1 {
        if n - pos < 3 {
            Err(DecodeError::TruncatedInstruction { offset: pos })
        } else {
            let value = signed16_from_le(buf[pos + 1], buf[pos + 2]);
            Ok(
                DecodedInstruction::TwoOperand {
                    mnemonic: TwoOpMnemonic::Arith(op),
                    dest: Operand::Accumulator { wide: true },
                    src: Operand::Immediate { value },
                    length: 3,
                },
            )
        }
    } else {
        let value = sign_extend_byte(buf[pos + 1]);
        Ok(
            DecodedInstruction::TwoOperand {
                mnemonic: TwoOpMnemonic::Arith(op),
                dest: Operand::Accumulator { wide: false },
                src: Operand::Immediate { value },
                length: 2,
            },
        )
    }
}

/// Decodes a conditional jump or loop instruction, executable.
pub fn decode_branch(buf: &[u8], pos: usize, mnemonic: BranchMnemonic) -> (r: Result<
    DecodedInstruction,
    DecodeError,
>)
    requires
        pos < buf@.len(),
    ensures
        r == spec_decode_branch(buf@, pos as int, mnemonic),
{
    let n = buf.len();
    if n - pos < 2 {
        return Err(DecodeError::TruncatedInstruction { offset: pos });
    }
    let offset = byte_as_signed(buf[pos + 1]);
    Ok(DecodedInstruction::Branch { mnemonic, offset, length: 2 })
}

/// One decode step at `pos`, executable.
pub fn decode_at(buf: &[u8], pos: usize) -> (r: Result<DecodedInstruction, DecodeError>)
    requires
        pos < buf@.len(),
    ensures
        r == spec_decode(buf@, pos as int),
{
    match classify(buf[pos]) {
        OpcodeClass::MoveRegisterOrMemory => decode_reg_rm_form(buf, pos, TwoOpMnemonic::Mov),
        OpcodeClass::MoveImmediateToRegister => decode_mov_immediate(buf, pos),
        OpcodeClass::ArithmeticRegisterOrMemory(op) => decode_reg_rm_form(
            buf,
            pos,
            TwoOpMnemonic::Arith(op),
        ),
        OpcodeClass::ArithmeticImmediateToRegisterOrMemory => decode_arith_immediate_rm(buf, pos),
        OpcodeClass::ArithmeticImmediateToAccumulator(op) => decode_arith_immediate_acc(
            buf,
            pos,
            op,
        ),
        OpcodeClass::ConditionalJump(cond) => decode_branch(buf, pos, BranchMnemonic::Jump(cond)),
        OpcodeClass::LoopInstruction(kind) => decode_branch(buf, pos, BranchMnemonic::Loop(kind)),
        OpcodeClass::Unclassified => Err(
            DecodeError::UnclassifiedOpcode { byte: buf[pos], offset: pos },
        ),
    }
}

/// The whole stream decoded from `pos` on: one instruction per step, each
/// step starting where the one before it ended, until the end of the buffer.
/// The first failing step fails the whole decode.
pub open spec fn spec_decode_all(buf: Seq<u8>, pos: int) -> Result<
    Seq<DecodedInstruction>,
    DecodeError,
>
    decreases buf.len() - pos,
{
    if pos < 0 || pos >= buf.len() {
        Ok(Seq::empty())
    } else {
        match spec_decode(buf, pos) {
            Err(e) => Err(e),
            Ok(inst) => if 1 <= inst.len_bytes() && pos + inst.len_bytes() <= buf.len() {
                match spec_decode_all(buf, pos + inst.len_bytes()) {
                    Err(e) => Err(e),
                    Ok(rest) => Ok(seq![inst] + rest),
                }
            } else {
                // never taken: a decoded instruction fits the buffer
                // (lemma_decode_step_bounds); the branch keeps the
                // recursion visibly bounded
                Err(DecodeError::TruncatedInstruction { offset: pos as usize })
            },
        }
    }
}

/// Decodes the whole buffer from offset 0, executable.
pub fn decode_all(buf: &[u8]) -> (r: Result<Vec<DecodedInstruction>, DecodeError>)
    ensures
        match r {
            Ok(v) => spec_decode_all(buf@, 0) == Ok::<Seq<DecodedInstruction>, DecodeError>(v@),
            Err(e) => spec_decode_all(buf@, 0) == Err::<Seq<DecodedInstruction>, DecodeError>(e),
        },
{
    let n = buf.len();
    let mut pos: usize = 0;
    let mut out: Vec<DecodedInstruction> = Vec::new();
    while pos < n
        invariant
            pos <= n,
            n == buf@.len(),
            match spec_decode_all(buf@, pos as int) {
                Ok(rest) => spec_decode_all(buf@, 0) == Ok::<Seq<DecodedInstruction>, DecodeError>(
                    out@ + rest,
                ),
                Err(e) => spec_decode_all(buf@, 0) == Err::<Seq<DecodedInstruction>, DecodeError>(
                    e,
                ),
            },
        decreases n - pos,
    {
        match decode_at(buf, pos) {
            Err(e) => {
                return Err(e);
            },
            Ok(inst) => {
                proof {
                    lemma_decode_step_bounds(buf@, pos as int);
                }
                let ghost prev_out = out@;
                let ghost prev_pos = pos as int;
                let length = inst.consumed();
                out.push(inst);
                pos = pos + length;
                proof {
                    assert(out@ =~= prev_out + seq![inst]);
                    match spec_decode_all(buf@, pos as int) {
                        Ok(rest) => {
                            assert(spec_decode_all(buf@, prev_pos) == Ok::<
                                Seq<DecodedInstruction>,
                                DecodeError,
                            >(seq![inst] + rest));
                            assert(prev_out + (seq![inst] + rest) =~= (prev_out + seq![inst])
                                + rest);
                        },
                        Err(e) => {
                            assert(spec_decode_all(buf@, prev_pos) == Err::<
                                Seq<DecodedInstruction>,
                                DecodeError,
                            >(e));
                        },
                    }
                }
            },
        }
    }
    proof {
        assert(out@ + Seq::<DecodedInstruction>::empty() =~= out@);
    }
    Ok(out)
}

} // verus!

