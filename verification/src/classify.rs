//! The opcode classifier: decides from the leading byte which instruction
//! family applies. Rules are tried in order of decreasing prefix
//! specificity, so that a short prefix never captures a byte that belongs
//! to a longer, more specific family.

use vstd::prelude::*;

use crate::instruction::{ArithOp, JumpCond, LoopKind, OpcodeClass};

verus! {

/// The family of the opcode byte `b`, as a priority-ordered set of
/// bit-prefix rules: 6-bit move and arithmetic prefixes, the 4-bit
/// move-immediate prefix, then the fixed jump and loop bytes.
pub open spec fn spec_classify(b: u8) -> OpcodeClass {
    if b >> 2 == 0x22 {
        OpcodeClass::MoveRegisterOrMemory
    } else if b >> 4 == 0x0b {
        OpcodeClass::MoveImmediateToRegister
    } else if b >> 2 == 0x00 {
        OpcodeClass::ArithmeticRegisterOrMemory(ArithOp::Add)
    } else if b >> 2 == 0x0a {
        OpcodeClass::ArithmeticRegisterOrMemory(ArithOp::Sub)
    } else if b >> 2 == 0x0e {
        OpcodeClass::ArithmeticRegisterOrMemory(ArithOp::Cmp)
    } else if b >> 2 == 0x20 {
        OpcodeClass::ArithmeticImmediateToRegisterOrMemory
    } else if b >> 2 == 0x01 {
        OpcodeClass::ArithmeticImmediateToAccumulator(ArithOp::Add)
    } else if b >> 2 == 0x0b {
        OpcodeClass::ArithmeticImmediateToAccumulator(ArithOp::Sub)
    } else if b >> 2 == 0x0f {
        OpcodeClass::ArithmeticImmediateToAccumulator(ArithOp::Cmp)
    } else if b == 0x74 {
        OpcodeClass::ConditionalJump(JumpCond::Equal)
    } else if b == 0x7c {
        OpcodeClass::ConditionalJump(JumpCond::Less)
    } else if b == 0x7e {
        OpcodeClass::ConditionalJump(JumpCond::LessOrEqual)
    } else if b == 0x72 {
        OpcodeClass::ConditionalJump(JumpCond::Below)
    } else if b == 0x76 {
        OpcodeClass::ConditionalJump(JumpCond::BelowOrEqual)
    } else if b == 0x7a {
        OpcodeClass::ConditionalJump(JumpCond::ParityEven)
    } else if b == 0x70 {
        OpcodeClass::ConditionalJump(JumpCond::Overflow)
    } else if b == 0x78 {
        OpcodeClass::ConditionalJump(JumpCond::Sign)
    } else if b == 0x75 {
        OpcodeClass::ConditionalJump(JumpCond::NotEqual)
    } else if b == 0x7d {
        OpcodeClass::ConditionalJump(JumpCond::NotLess)
    } else if b == 0x7f {
        OpcodeClass::ConditionalJump(JumpCond::NotLessOrEqual)
    } else if b == 0x73 {
        OpcodeClass::ConditionalJump(JumpCond::NotBelow)
    } else if b == 0x77 {
        OpcodeClass::ConditionalJump(JumpCond::NotBelowOrEqual)
    } else if b == 0x7b {
        OpcodeClass::ConditionalJump(JumpCond::ParityOdd)
    } else if b == 0x71 {
        OpcodeClass::ConditionalJump(JumpCond::NotOverflow)
    } else if b == 0x79 {
        OpcodeClass::ConditionalJump(JumpCond::NotSign)
    } else if b == 0xe2 {
        OpcodeClass::LoopInstruction(LoopKind::CxTimes)
    } else if b == 0xe1 {
        OpcodeClass::LoopInstruction(LoopKind::WhileZero)
    } else if b == 0xe0 {
        OpcodeClass::LoopInstruction(LoopKind::WhileNotZero)
    } else if b == 0xe3 {
        OpcodeClass::LoopInstruction(LoopKind::JumpCxZero)
    } else {
        OpcodeClass::Unclassified
    }
}

/// Classifies the opcode byte `b`, executable.
pub fn classify(b: u8) -> (c: OpcodeClass)
    ensures
        c == spec_classify(b),
{
    if b >> 2 == 0x22 {
        OpcodeClass::MoveRegisterOrMemory
    } else if b >> 4 == 0x0b {
        OpcodeClass::MoveImmediateToRegister
    } else if b >> 2 == 0x00 {
        OpcodeClass::ArithmeticRegisterOrMemory(ArithOp::Add)
    } else if b >> 2 == 0x0a {
        OpcodeClass::ArithmeticRegisterOrMemory(ArithOp::Sub)
    } else if b >> 2 == 0x0e {
        OpcodeClass::ArithmeticRegisterOrMemory(ArithOp::Cmp)
    } else if b >> 2 == 0x20 {
        OpcodeClass::ArithmeticImmediateToRegisterOrMemory
    } else if b >> 2 == 0x01 {
        OpcodeClass::ArithmeticImmediateToAccumulator(ArithOp::Add)
    } else if b >> 2 == 0x0b {
        OpcodeClass::ArithmeticImmediateToAccumulator(ArithOp::Sub)
    } else if b >> 2 == 0x0f {
        OpcodeClass::ArithmeticImmediateToAccumulator(ArithOp::Cmp)
    } else if b == 0x74 {
        OpcodeClass::ConditionalJump(JumpCond::Equal)
    } else if b == 0x7c {
        OpcodeClass::ConditionalJump(JumpCond::Less)
    } else if b == 0x7e {
        OpcodeClass::ConditionalJump(JumpCond::LessOrEqual)
    } else if b == 0x72 {
        OpcodeClass::ConditionalJump(JumpCond::Below)
    } else if b == 0x76 {
        OpcodeClass::ConditionalJump(JumpCond::BelowOrEqual)
    } else if b == 0x7a {
        OpcodeClass::ConditionalJump(JumpCond::ParityEven)
    } else if b == 0x70 {
        OpcodeClass::ConditionalJump(JumpCond::Overflow)
    } else if b == 0x78 {
        OpcodeClass::ConditionalJump(JumpCond::Sign)
    } else if b == 0x75 {
        OpcodeClass::ConditionalJump(JumpCond::NotEqual)
    } else if b == 0x7d {
        OpcodeClass::ConditionalJump(JumpCond::NotLess)
    } else if b == 0x7f {
        OpcodeClass::ConditionalJump(JumpCond::NotLessOrEqual)
    } else if b == 0x73 {
        OpcodeClass::ConditionalJump(JumpCond::NotBelow)
    } else if b == 0x77 {
        OpcodeClass::ConditionalJump(JumpCond::NotBelowOrEqual)
    } else if b == 0x7b {
        OpcodeClass::ConditionalJump(JumpCond::ParityOdd)
    } else if b == 0x71 {
        OpcodeClass::ConditionalJump(JumpCond::NotOverflow)
    } else if b == 0x79 {
        OpcodeClass::ConditionalJump(JumpCond::NotSign)
    } else if b == 0xe2 {
        OpcodeClass::LoopInstruction(LoopKind::CxTimes)
    } else if b == 0xe1 {
        OpcodeClass::LoopInstruction(LoopKind::WhileZero)
    } else if b == 0xe0 {
        OpcodeClass::LoopInstruction(LoopKind::WhileNotZero)
    } else if b == 0xe3 {
        OpcodeClass::LoopInstruction(LoopKind::JumpCxZero)
    } else {
        OpcodeClass::Unclassified
    }
}

} // verus!
