//! The renderer: lookup tables from register and memory indexes to their
//! names, decimal text for signed values, and the formatting of a decoded
//! instruction as one line of assembly-style text.

use vstd::prelude::*;

use crate::instruction::{
    ArithOp, BranchMnemonic, DecodedInstruction, JumpCond, LoopKind, Operand, TwoOpMnemonic,
};

verus! {

/// The character of one decimal digit.
pub open spec fn spec_digit_char(d: int) -> char {
    if d == 0 {
        '0'
    } else if d == 1 {
        '1'
    } else if d == 2 {
        '2'
    } else if d == 3 {
        '3'
    } else if d == 4 {
        '4'
    } else if d == 5 {
        '5'
    } else if d == 6 {
        '6'
    } else if d == 7 {
        '7'
    } else if d == 8 {
        '8'
    } else {
        '9'
    }
}

/// The decimal digits of a non-negative value, most significant first.
pub open spec fn spec_decimal_digits(n: int) -> Seq<char>
    decreases n,
{
    if n < 10 {
        seq![spec_digit_char(n)]
    } else {
        spec_decimal_digits(n / 10) + seq![spec_digit_char(n % 10)]
    }
}

/// The decimal text of a signed value: a minus sign before the digits of
/// its magnitude when negative.
pub open spec fn spec_signed_decimal(v: int) -> Seq<char> {
    if v < 0 {
        seq!['-'] + spec_decimal_digits(-v)
    } else {
        spec_decimal_digits(v)
    }
}

/// The name of the register selected by a 3-bit index and the width flag:
/// the 16-bit table when wide, the 8-bit table otherwise.
pub open spec fn spec_register_name(wide: bool, index: u8) -> Seq<char> {
    if wide {
        if index == 0 {
            "ax"@
        } else if index == 1 {
            "cx"@
        } else if index == 2 {
            "dx"@
        } else if index == 3 {
            "bx"@
        } else if index == 4 {
            "sp"@
        } else if index == 5 {
            "bp"@
        } else if index == 6 {
            "si"@
        } else {
            "di"@
        }
    } else {
        if index == 0 {
            "al"@
        } else if index == 1 {
            "cl"@
        } else if index == 2 {
            "dl"@
        } else if index == 3 {
            "bl"@
        } else if index == 4 {
            "ah"@
        } else if index == 5 {
            "ch"@
        } else if index == 6 {
            "dh"@
        } else {
            "bh"@
        }
    }
}

/// The base addressing expression selected by a 3-bit rm index in memory
/// mode.
pub open spec fn spec_base_expression(index: u8) -> Seq<char> {
    if index == 0 {
        "bx + si"@
    } else if index == 1 {
        "bx + di"@
    } else if index == 2 {
        "bp + si"@
    } else if index == 3 {
        "bp + di"@
    } else if index == 4 {
        "si"@
    } else if index == 5 {
        "di"@
    } else if index == 6 {
        "bp"@
    } else {
        "bx"@
    }
}

/// The mnemonic of a two-operand instruction.
pub open spec fn spec_two_op_mnemonic_text(m: TwoOpMnemonic) -> Seq<char> {
    match m {
        TwoOpMnemonic::Mov => "mov"@,
        TwoOpMnemonic::Arith(ArithOp::Add) => "add"@,
        TwoOpMnemonic::Arith(ArithOp::Sub) => "sub"@,
        TwoOpMnemonic::Arith(ArithOp::Cmp) => "cmp"@,
    }
}

/// The mnemonic of a branch instruction.
pub open spec fn spec_branch_mnemonic_text(m: BranchMnemonic) -> Seq<char> {
    match m {
        BranchMnemonic::Jump(JumpCond::Equal) => "je/jz"@,
        BranchMnemonic::Jump(JumpCond::Less) => "jl/jnge"@,
        BranchMnemonic::Jump(JumpCond::LessOrEqual) => "jle/jng"@,
        BranchMnemonic::Jump(JumpCond::Below) => "jb/jnae"@,
        BranchMnemonic::Jump(JumpCond::BelowOrEqual) => "jbe/jna"@,
        BranchMnemonic::Jump(JumpCond::ParityEven) => "jp/jpe"@,
        BranchMnemonic::Jump(JumpCond::Overflow) => "jo"@,
        BranchMnemonic::Jump(JumpCond::Sign) => "js"@,
        BranchMnemonic::Jump(JumpCond::NotEqual) => "jne/jnz"@,
        BranchMnemonic::Jump(JumpCond::NotLess) => "jnl/jge"@,
        BranchMnemonic::Jump(JumpCond::NotLessOrEqual) => "jnle/jg"@,
        BranchMnemonic::Jump(JumpCond::NotBelow) => "jnb/jae"@,
        BranchMnemonic::Jump(JumpCond::NotBelowOrEqual) => "jnbe/ja"@,
        BranchMnemonic::Jump(JumpCond::ParityOdd) => "jnp/jpo"@,
        BranchMnemonic::Jump(JumpCond::NotOverflow) => "jno"@,
        BranchMnemonic::Jump(JumpCond::NotSign) => "jns"@,
        BranchMnemonic::Loop(LoopKind::CxTimes) => "loop"@,
        BranchMnemonic::Loop(LoopKind::WhileZero) => "loopz/loope"@,
        BranchMnemonic::Loop(LoopKind::WhileNotZero) => "loopnz/loopne"@,
        BranchMnemonic::Loop(LoopKind::JumpCxZero) => "jcxz"@,
    }
}

/// The text of one operand: a bare register or accumulator name, a bare
/// decimal immediate, or a bracketed memory reference.
pub open spec fn spec_operand_text(o: Operand) -> Seq<char> {
    match o {
        Operand::Register { wide, index } => spec_register_name(wide, index),
        Operand::Accumulator { wide } => if wide {
            "ax"@
        } else {
            "al"@
        },
        Operand::Immediate { value } => spec_signed_decimal(value as int),
        Operand::DirectAddress { addr } => "["@ + spec_signed_decimal(addr as int) + "]"@,
        Operand::Memory { base, disp } => match disp {
            None => "["@ + spec_base_expression(base) + "]"@,
            Some(d) => "["@ + spec_base_expression(base) + " + "@ + spec_signed_decimal(d as int)
                + "]"@,
        },
    }
}

/// The rendered line of one decoded instruction: mnemonic, destination and
/// source for the two-operand forms; mnemonic and raw signed displacement
/// for the branch forms.
pub open spec fn spec_render_line(inst: DecodedInstruction) -> Seq<char> {
    match inst {
        DecodedInstruction::TwoOperand { mnemonic, dest, src, .. } => spec_two_op_mnemonic_text(
            mnemonic,
        ) + " "@ + spec_operand_text(dest) + ", "@ + spec_operand_text(src),
        DecodedInstruction::Branch { mnemonic, offset, .. } => spec_branch_mnemonic_text(mnemonic)
            + ", "@ + spec_signed_decimal(offset as int),
    }
}

/// One decimal digit as text, executable.
fn digit_string(d: u16) -> (s: String)
    requires
        d < 10,
    ensures
        s@ == seq![spec_digit_char(d as int)],
{
    let lit: &'static str = if d == 0 {
        "0"
    } else if d == 1 {
        "1"
    } else if d == 2 {
        "2"
    } else if d == 3 {
        "3"
    } else if d == 4 {
        "4"
    } else if d == 5 {
        "5"
    } else if d == 6 {
        "6"
    } else if d == 7 {
        "7"
    } else if d == 8 {
        "8"
    } else {
        "9"
    };
    proof {
        reveal_strlit("0");
        reveal_strlit("1");
        reveal_strlit("2");
        reveal_strlit("3");
        reveal_strlit("4");
        reveal_strlit("5");
        reveal_strlit("6");
        reveal_strlit("7");
        reveal_strlit("8");
        reveal_strlit("9");
        assert(lit@ =~= seq![spec_digit_char(d as int)]);
    }
    String::from_str(lit)
}

/// The decimal digits of a value, executable.
pub fn decimal_digits_string(n: u16) -> (s: String)
    ensures
        s@ == spec_decimal_digits(n as int),
    decreases n,
{
    if n < 10 {
        digit_string(n)
    } else {
        let mut s = decimal_digits_string(n / 10);
        let last = digit_string(n % 10);
        s.append(last.as_str());
        proof {
            assert(s@ =~= spec_decimal_digits(n as int));
        }
        s
    }
}

/// The decimal text of a signed value, executable.
pub fn signed_decimal_string(v: i16) -> (s: String)
    ensures
        s@ == spec_signed_decimal(v as int),
{
    if v >= 0 {
        decimal_digits_string(v as u16)
    } else {
        let magnitude: u16 = (0 - v as i32) as u16;
        let digits = decimal_digits_string(magnitude);
        let mut s = String::from_str("-");
        s.append(digits.as_str());
        proof {
            reveal_strlit("-");
            assert(s@ =~= spec_signed_decimal(v as int));
        }
        s
    }
}

/// The register name table, executable.
pub fn register_name(wide: bool, index: u8) -> (r: &'static str)
    ensures
        r@ == spec_register_name(wide, index),
{
    if wide {
        if index == 0 {
            "ax"
        } else if index == 1 {
            "cx"
        } else if index == 2 {
            "dx"
        } else if index == 3 {
            "bx"
        } else if index == 4 {
            "sp"
        } else if index == 5 {
            "bp"
        } else if index == 6 {
            "si"
        } else {
            "di"
        }
    } else {
        if index == 0 {
            "al"
        } else if index == 1 {
            "cl"
        } else if index == 2 {
            "dl"
        } else if index == 3 {
            "bl"
        } else if index == 4 {
            "ah"
        } else if index == 5 {
            "ch"
        } else if index == 6 {
            "dh"
        } else {
            "bh"
        }
    }
}

/// The base addressing expression table, executable.
pub fn base_expression(index: u8) -> (r: &'static str)
    ensures
        r@ == spec_base_expression(index),
{
    if index == 0 {
        "bx + si"
    } else if index == 1 {
        "bx + di"
    } else if index == 2 {
        "bp + si"
    } else if index == 3 {
        "bp + di"
    } else if index == 4 {
        "si"
    } else if index == 5 {
        "di"
    } else if index == 6 {
        "bp"
    } else {
        "bx"
    }
}

/// The mnemonic of a two-operand instruction, executable.
pub fn two_op_mnemonic_text(m: TwoOpMnemonic) -> (r: &'static str)
    ensures
        r@ == spec_two_op_mnemonic_text(m),
{
    match m {
        TwoOpMnemonic::Mov => "mov",
        TwoOpMnemonic::Arith(ArithOp::Add) => "add",
        TwoOpMnemonic::Arith(ArithOp::Sub) => "sub",
        TwoOpMnemonic::Arith(ArithOp::Cmp) => "cmp",
    }
}

/// The mnemonic of a branch instruction, executable.
pub fn branch_mnemonic_text(m: BranchMnemonic) -> (r: &'static str)
    ensures
        r@ == spec_branch_mnemonic_text(m),
{
    match m {
        BranchMnemonic::Jump(JumpCond::Equal) => "je/jz",
        BranchMnemonic::Jump(JumpCond::Less) => "jl/jnge",
        BranchMnemonic::Jump(JumpCond::LessOrEqual) => "jle/jng",
        BranchMnemonic::Jump(JumpCond::Below) => "jb/jnae",
        BranchMnemonic::Jump(JumpCond::BelowOrEqual) => "jbe/jna",
        BranchMnemonic::Jump(JumpCond::ParityEven) => "jp/jpe",
        BranchMnemonic::Jump(JumpCond::Overflow) => "jo",
        BranchMnemonic::Jump(JumpCond::Sign) => "js",
        BranchMnemonic::Jump(JumpCond::NotEqual) => "jne/jnz",
        BranchMnemonic::Jump(JumpCond::NotLess) => "jnl/jge",
        BranchMnemonic::Jump(JumpCond::NotLessOrEqual) => "jnle/jg",
        BranchMnemonic::Jump(JumpCond::NotBelow) => "jnb/jae",
        BranchMnemonic::Jump(JumpCond::NotBelowOrEqual) => "jnbe/ja",
        BranchMnemonic::Jump(JumpCond::ParityOdd) => "jnp/jpo",
        BranchMnemonic::Jump(JumpCond::NotOverflow) => "jno",
        BranchMnemonic::Jump(JumpCond::NotSign) => "jns",
        BranchMnemonic::Loop(LoopKind::CxTimes) => "loop",
        BranchMnemonic::Loop(LoopKind::WhileZero) => "loopz/loope",
        BranchMnemonic::Loop(LoopKind::WhileNotZero) => "loopnz/loopne",
        BranchMnemonic::Loop(LoopKind::JumpCxZero) => "jcxz",
    }
}

/// The text of one operand, executable.
pub fn operand_string(o: &Operand) -> (s: String)
    ensures
        s@ == spec_operand_text(*o),
{
    match o {
        Operand::Register { wide, index } => String::from_str(register_name(*wide, *index)),
        Operand::Accumulator { wide } => String::from_str(
            if *wide {
                "ax"
            } else {
                "al"
            },
        ),
        Operand::Immediate { value } => signed_decimal_string(*value),
        Operand::DirectAddress { addr } => {
            let mut s = String::from_str("[");
            let inner = signed_decimal_string(*addr);
            s.append(inner.as_str());
            s.append("]");
            proof {
                assert(s@ =~= spec_operand_text(*o));
            }
            s
        },
        Operand::Memory { base, disp } => {
            let mut s = String::from_str("[");
            s.append(base_expression(*base));
            match disp {
                None => {},
                Some(d) => {
                    s.append(" + ");
                    let inner = signed_decimal_string(*d);
                    s.append(inner.as_str());
                },
            }
            s.append("]");
            proof {
                assert(s@ =~= spec_operand_text(*o));
            }
            s
        },
    }
}

/// Renders one decoded instruction as one line of assembly-style text,
/// executable.
pub fn render_line(inst: &DecodedInstruction) -> (s: String)
    ensures
        s@ == spec_render_line(*inst),
{
    match inst {
        DecodedInstruction::TwoOperand { mnemonic, dest, src, .. } => {
            let mut s = String::from_str(two_op_mnemonic_text(*mnemonic));
            s.append(" ");
            let dest_text = operand_string(dest);
            s.append(dest_text.as_str());
            s.append(", ");
            let src_text = operand_string(src);
            s.append(src_text.as_str());
            proof {
                assert(s@ =~= spec_render_line(*inst));
            }
            s
        },
        DecodedInstruction::Branch { mnemonic, offset, .. } => {
            let mut s = String::from_str(branch_mnemonic_text(*mnemonic));
            s.append(", ");
            let offset_text = signed_decimal_string(*offset as i16);
            s.append(offset_text.as_str());
            proof {
                assert(s@ =~= spec_render_line(*inst));
            }
            s
        },
    }
}

/// The two fixed header lines that precede the decoded output: a comment
/// naming the source input, and the directive declaring the 16-bit target
/// context.
pub fn header_lines(path: &str) -> (r: (String, String))
    ensures
        r.0@ == "; "@ + path@ + ":"@,
        r.1@ == "bits 16 1001011100010"@,
{
    let mut comment = String::from_str("; ");
    comment.append(path);
    comment.append(":");
    let directive = String::from_str("bits 16 1001011100010");
    (comment, directive)
}

} // verus!
