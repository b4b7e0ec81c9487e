//! The data model of the decoder: instruction families, operands, decoded
//! instructions, and the errors a decode step can report.

use vstd::prelude::*;

verus! {

/// The arithmetic operation selected by a 3-bit sub-code (000, 101, 111).
#[derive(Clone, Copy, PartialEq, Eq, Debug, Structural)]
pub enum ArithOp {
    Add,
    Sub,
    Cmp,
}

/// The condition of a conditional-jump opcode.
#[derive(Clone, Copy, PartialEq, Eq, Debug, Structural)]
pub enum JumpCond {
    Equal,
    Less,
    LessOrEqual,
    Below,
    BelowOrEqual,
    ParityEven,
    Overflow,
    Sign,
    NotEqual,
    NotLess,
    NotLessOrEqual,
    NotBelow,
    NotBelowOrEqual,
    ParityOdd,
    NotOverflow,
    NotSign,
}

/// The member of the loop family selected by a fixed opcode byte.
#[derive(Clone, Copy, PartialEq, Eq, Debug, Structural)]
pub enum LoopKind {
    CxTimes,
    WhileZero,
    WhileNotZero,
    JumpCxZero,
}

/// The instruction family a leading opcode byte belongs to.
#[derive(Clone, Copy, PartialEq, Eq, Debug, Structural)]
pub enum OpcodeClass {
    MoveRegisterOrMemory,
    MoveImmediateToRegister,
    ArithmeticRegisterOrMemory(ArithOp),
    ArithmeticImmediateToRegisterOrMemory,
    ArithmeticImmediateToAccumulator(ArithOp),
    ConditionalJump(JumpCond),
    LoopInstruction(LoopKind),
    Unclassified,
}

/// How the rm field of a mod/reg/rm byte addresses its operand.
#[derive(Clone, Copy, PartialEq, Eq, Debug, Structural)]
pub enum AddressingMode {
    RegisterDirect,
    MemoryNoDisplacement,
    MemoryDisplacement8,
    MemoryDisplacement16,
    MemoryDirectAddress,
}

/// One operand of a decoded instruction.
///
/// `Register` and `Memory` carry table indexes (always below 8, being 3-bit
/// fields); the renderer maps them to register names and base expressions.
#[derive(Clone, Copy, PartialEq, Eq, Debug, Structural)]
pub enum Operand {
    Register { wide: bool, index: u8 },
    Memory { base: u8, disp: Option<i16> },
    DirectAddress { addr: i16 },
    Immediate { value: i16 },
    Accumulator { wide: bool },
}

/// The mnemonic of a two-operand instruction.
#[derive(Clone, Copy, PartialEq, Eq, Debug, Structural)]
pub enum TwoOpMnemonic {
    Mov,
    Arith(ArithOp),
}

/// The mnemonic of a branch instruction (conditional jump or loop).
#[derive(Clone, Copy, PartialEq, Eq, Debug, Structural)]
pub enum BranchMnemonic {
    Jump(JumpCond),
    Loop(LoopKind),
}

/// One decoded instruction together with the number of bytes it consumed.
///
/// Branch instructions carry the raw signed displacement byte; no branch
/// target is resolved.
#[derive(Clone, Copy, PartialEq, Eq, Debug, Structural)]
#[allow(inconsistent_fields)]
pub enum DecodedInstruction {
    TwoOperand { mnemonic: TwoOpMnemonic, dest: Operand, src: Operand, length: usize },
    Branch { mnemonic: BranchMnemonic, offset: i8, length: usize },
}

impl DecodedInstruction {
    /// The number of bytes this instruction consumed from the stream.
    pub open spec fn len_bytes(self) -> usize {
        match self {
            DecodedInstruction::TwoOperand { length, .. } => length,
            DecodedInstruction::Branch { length, .. } => length,
        }
    }

    /// Executable access to the consumed length.
    pub fn consumed(&self) -> (n: usize)
        ensures
            n == self.len_bytes(),
    {
        match self {
            DecodedInstruction::TwoOperand { length, .. } => *length,
            DecodedInstruction::Branch { length, .. } => *length,
        }
    }
}

/// Why a decode step failed. Every failure is fatal for the whole run:
/// without the length of the instruction at the cursor, no later offset is
/// trustworthy.
#[derive(Clone, Copy, PartialEq, Eq, Debug, Structural)]
pub enum DecodeError {
    /// The byte at `offset` matches no known instruction family.
    UnclassifiedOpcode { byte: u8, offset: usize },
    /// Fewer bytes remain at `offset` than the matched family requires.
    TruncatedInstruction { offset: usize },
    /// The arithmetic sub-code at the instruction starting at `offset` maps
    /// to no supported operation.
    InvalidSubOperation { code: u8, offset: usize },
}

} // verus!
