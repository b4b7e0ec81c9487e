use disasm8086::classify::classify;
use disasm8086::decode::{decode_all, decode_at};
use disasm8086::instruction::{
    AddressingMode, ArithOp, BranchMnemonic, DecodeError, DecodedInstruction, JumpCond, LoopKind,
    OpcodeClass, Operand, TwoOpMnemonic,
};
use disasm8086::resolve::addressing_mode_of;

#[test]
fn classify_covers_every_family() {
    assert_eq!(classify(0x89), OpcodeClass::MoveRegisterOrMemory);
    assert_eq!(classify(0xB9), OpcodeClass::MoveImmediateToRegister);
    assert_eq!(classify(0x01), OpcodeClass::ArithmeticRegisterOrMemory(ArithOp::Add));
    assert_eq!(classify(0x29), OpcodeClass::ArithmeticRegisterOrMemory(ArithOp::Sub));
    assert_eq!(classify(0x39), OpcodeClass::ArithmeticRegisterOrMemory(ArithOp::Cmp));
    assert_eq!(classify(0x81), OpcodeClass::ArithmeticImmediateToRegisterOrMemory);
    assert_eq!(classify(0x04), OpcodeClass::ArithmeticImmediateToAccumulator(ArithOp::Add));
    assert_eq!(classify(0x2C), OpcodeClass::ArithmeticImmediateToAccumulator(ArithOp::Sub));
    assert_eq!(classify(0x3D), OpcodeClass::ArithmeticImmediateToAccumulator(ArithOp::Cmp));
    assert_eq!(classify(0xE2), OpcodeClass::LoopInstruction(LoopKind::CxTimes));
    assert_eq!(classify(0xE1), OpcodeClass::LoopInstruction(LoopKind::WhileZero));
    assert_eq!(classify(0xE0), OpcodeClass::LoopInstruction(LoopKind::WhileNotZero));
    assert_eq!(classify(0xE3), OpcodeClass::LoopInstruction(LoopKind::JumpCxZero));
    assert_eq!(classify(0xF4), OpcodeClass::Unclassified);
}

#[test]
fn classify_covers_every_jump_condition() {
    assert_eq!(classify(0x74), OpcodeClass::ConditionalJump(JumpCond::Equal));
    assert_eq!(classify(0x7C), OpcodeClass::ConditionalJump(JumpCond::Less));
    assert_eq!(classify(0x7E), OpcodeClass::ConditionalJump(JumpCond::LessOrEqual));
    assert_eq!(classify(0x72), OpcodeClass::ConditionalJump(JumpCond::Below));
    assert_eq!(classify(0x76), OpcodeClass::ConditionalJump(JumpCond::BelowOrEqual));
    assert_eq!(classify(0x7A), OpcodeClass::ConditionalJump(JumpCond::ParityEven));
    assert_eq!(classify(0x70), OpcodeClass::ConditionalJump(JumpCond::Overflow));
    assert_eq!(classify(0x78), OpcodeClass::ConditionalJump(JumpCond::Sign));
    assert_eq!(classify(0x75), OpcodeClass::ConditionalJump(JumpCond::NotEqual));
    assert_eq!(classify(0x7D), OpcodeClass::ConditionalJump(JumpCond::NotLess));
    assert_eq!(classify(0x7F), OpcodeClass::ConditionalJump(JumpCond::NotLessOrEqual));
    assert_eq!(classify(0x73), OpcodeClass::ConditionalJump(JumpCond::NotBelow));
    assert_eq!(classify(0x77), OpcodeClass::ConditionalJump(JumpCond::NotBelowOrEqual));
    assert_eq!(classify(0x7B), OpcodeClass::ConditionalJump(JumpCond::ParityOdd));
    assert_eq!(classify(0x71), OpcodeClass::ConditionalJump(JumpCond::NotOverflow));
    assert_eq!(classify(0x79), OpcodeClass::ConditionalJump(JumpCond::NotSign));
}

#[test]
fn addressing_mode_follows_mode_and_rm_fields() {
    // mode 00, rm != 110: base expression, no displacement
    assert_eq!(addressing_mode_of(0b00_000_000), AddressingMode::MemoryNoDisplacement);
    // mode 00, rm == 110: a direct address, never a bp-relative expression
    assert_eq!(addressing_mode_of(0b00_000_110), AddressingMode::MemoryDirectAddress);
    assert_eq!(addressing_mode_of(0b01_000_110), AddressingMode::MemoryDisplacement8);
    assert_eq!(addressing_mode_of(0b10_000_110), AddressingMode::MemoryDisplacement16);
    assert_eq!(addressing_mode_of(0b11_000_110), AddressingMode::RegisterDirect);
}

#[test]
fn mov_register_to_register() {
    // width=1, d=1, reg=000 (ax), rm=001 (cx): the reg field is the source
    let r = decode_at(&[0x89, 0xC1], 0);
    assert_eq!(
        r,
        Ok(DecodedInstruction::TwoOperand {
            mnemonic: TwoOpMnemonic::Mov,
            dest: Operand::Register { wide: true, index: 1 },
            src: Operand::Register { wide: true, index: 0 },
            length: 2,
        })
    );
}

#[test]
fn mov_immediate_to_register_wide() {
    let r = decode_at(&[0xB9, 0xE8, 0x03], 0);
    assert_eq!(
        r,
        Ok(DecodedInstruction::TwoOperand {
            mnemonic: TwoOpMnemonic::Mov,
            dest: Operand::Register { wide: true, index: 1 },
            src: Operand::Immediate { value: 1000 },
            length: 3,
        })
    );
}

#[test]
fn mov_immediate_to_register_narrow() {
    let r = decode_at(&[0xB1, 0x05], 0);
    assert_eq!(
        r,
        Ok(DecodedInstruction::TwoOperand {
            mnemonic: TwoOpMnemonic::Mov,
            dest: Operand::Register { wide: false, index: 1 },
            src: Operand::Immediate { value: 5 },
            length: 2,
        })
    );
}

#[test]
fn arith_immediate_wide_value_is_signed() {
    // s=0, w=1: a 2-byte immediate; 0xFFEC must read as -20, not 65516
    let r = decode_at(&[0x81, 0xC0, 0xEC, 0xFF], 0);
    assert_eq!(
        r,
        Ok(DecodedInstruction::TwoOperand {
            mnemonic: TwoOpMnemonic::Arith(ArithOp::Add),
            dest: Operand::Register { wide: true, index: 0 },
            src: Operand::Immediate { value: -20 },
            length: 4,
        })
    );
}

#[test]
fn arith_immediate_byte_sign_extends() {
    // s=1, w=1: a 1-byte immediate; 0xEC must sign-extend to -20, not 236
    let r = decode_at(&[0x83, 0xC0, 0xEC], 0);
    assert_eq!(
        r,
        Ok(DecodedInstruction::TwoOperand {
            mnemonic: TwoOpMnemonic::Arith(ArithOp::Add),
            dest: Operand::Register { wide: true, index: 0 },
            src: Operand::Immediate { value: -20 },
            length: 3,
        })
    );
}

#[test]
fn direct_address_in_mov() {
    // mode=00, rm=110: a 2-byte absolute address, not a bp expression
    let r = decode_at(&[0x89, 0x0E, 0x10, 0x00], 0);
    assert_eq!(
        r,
        Ok(DecodedInstruction::TwoOperand {
            mnemonic: TwoOpMnemonic::Mov,
            dest: Operand::DirectAddress { addr: 16 },
            src: Operand::Register { wide: true, index: 1 },
            length: 4,
        })
    );
}

#[test]
fn direct_address_in_arith_immediate_counts_both_extras() {
    // direct address plus a 2-byte immediate: 2 + 2 + 2 bytes consumed
    let r = decode_at(&[0x81, 0x06, 0xE8, 0x03, 0x05, 0x00], 0);
    assert_eq!(
        r,
        Ok(DecodedInstruction::TwoOperand {
            mnemonic: TwoOpMnemonic::Arith(ArithOp::Add),
            dest: Operand::DirectAddress { addr: 1000 },
            src: Operand::Immediate { value: 5 },
            length: 6,
        })
    );
}

#[test]
fn bp_with_explicit_displacement_is_not_a_direct_address() {
    // mode=01, rm=110 keeps the bp base expression with its displacement
    let r = decode_at(&[0x89, 0x4E, 0x00], 0);
    assert_eq!(
        r,
        Ok(DecodedInstruction::TwoOperand {
            mnemonic: TwoOpMnemonic::Mov,
            dest: Operand::Memory { base: 6, disp: Some(0) },
            src: Operand::Register { wide: true, index: 1 },
            length: 3,
        })
    );
}

#[test]
fn register_mode_arith_immediate_uses_wide_register_table() {
    // register-mode immediates index the 16-bit table even with w=0
    let r = decode_at(&[0x80, 0xC1, 0x01], 0);
    assert_eq!(
        r,
        Ok(DecodedInstruction::TwoOperand {
            mnemonic: TwoOpMnemonic::Arith(ArithOp::Add),
            dest: Operand::Register { wide: true, index: 1 },
            src: Operand::Immediate { value: 1 },
            length: 3,
        })
    );
}

#[test]
fn conditional_jump_keeps_raw_displacement() {
    let r = decode_at(&[0x75, 0xFE], 0);
    assert_eq!(
        r,
        Ok(DecodedInstruction::Branch {
            mnemonic: BranchMnemonic::Jump(JumpCond::NotEqual),
            offset: -2,
            length: 2,
        })
    );
}

#[test]
fn loop_keeps_raw_displacement() {
    let r = decode_at(&[0xE2, 0xFC], 0);
    assert_eq!(
        r,
        Ok(DecodedInstruction::Branch {
            mnemonic: BranchMnemonic::Loop(LoopKind::CxTimes),
            offset: -4,
            length: 2,
        })
    );
}

#[test]
fn unclassified_opcode_fails_decoding() {
    let r = decode_all(&[0xF4]);
    assert_eq!(r, Err(DecodeError::UnclassifiedOpcode { byte: 0xF4, offset: 0 }));
}

#[test]
fn unclassified_opcode_reports_its_offset() {
    let r = decode_all(&[0x89, 0xC1, 0xF4]);
    assert_eq!(r, Err(DecodeError::UnclassifiedOpcode { byte: 0xF4, offset: 2 }));
}

#[test]
fn truncated_sixteen_bit_displacement_fails() {
    // the mod/reg/rm byte declares a 16-bit displacement, 1 byte remains
    let r = decode_all(&[0x89, 0x84, 0x01]);
    assert_eq!(r, Err(DecodeError::TruncatedInstruction { offset: 0 }));
}

#[test]
fn truncated_immediate_fails() {
    let r = decode_all(&[0xB9, 0xE8]);
    assert_eq!(r, Err(DecodeError::TruncatedInstruction { offset: 0 }));
}

#[test]
fn truncated_instruction_reports_stream_offset() {
    let r = decode_all(&[0x75, 0xFE, 0x89]);
    assert_eq!(r, Err(DecodeError::TruncatedInstruction { offset: 2 }));
}

#[test]
fn invalid_sub_operation_fails() {
    // the sub-code 001 of the mod/reg/rm byte maps to no operation
    let r = decode_all(&[0x81, 0xC8, 0x01, 0x00]);
    assert_eq!(r, Err(DecodeError::InvalidSubOperation { code: 1, offset: 0 }));
}

#[test]
fn concatenated_encodings_consume_the_buffer_exactly() {
    let buf = [0x89, 0xC1, 0xB9, 0xE8, 0x03, 0x75, 0xFE];
    let decoded = decode_all(&buf).unwrap();
    assert_eq!(decoded.len(), 3);
    let total: usize = decoded.iter().map(|i| i.consumed()).sum();
    assert_eq!(total, buf.len());
}

#[test]
fn decoding_the_empty_buffer_yields_no_instructions() {
    let decoded = decode_all(&[]).unwrap();
    assert_eq!(decoded.len(), 0);
}

#[test]
fn every_family_in_one_stream_consumes_exactly() {
    let buf = [
        0x89, 0xC1, // mov, register mode
        0x8A, 0x00, // mov, memory mode without displacement
        0x89, 0x41, 0xF0, // mov, 8-bit displacement
        0x89, 0x82, 0xE8, 0x03, // mov, 16-bit displacement
        0x89, 0x0E, 0x10, 0x00, // mov, direct address
        0xB9, 0xE8, 0x03, // mov immediate, wide
        0xB1, 0x05, // mov immediate, narrow
        0x29, 0xC1, // sub, register mode
        0x81, 0xC0, 0xEC, 0xFF, // add immediate, wide
        0x83, 0xE9, 0x02, // sub immediate, sign-extended
        0x04, 0x09, // add to accumulator, narrow
        0x3D, 0xE8, 0x03, // cmp to accumulator, wide
        0x75, 0xFE, // conditional jump
        0xE2, 0xFC, // loop
    ];
    let decoded = decode_all(&buf).unwrap();
    assert_eq!(decoded.len(), 14);
    let total: usize = decoded.iter().map(|i| i.consumed()).sum();
    assert_eq!(total, buf.len());
}
