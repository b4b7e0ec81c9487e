//! A static disassembler for a subset of the 8086 instruction set.
//!
//! The library decodes a raw byte buffer into a sequence of instruction
//! records covering the move, add/sub/cmp, conditional-jump and loop
//! families, and renders each record as one line of assembly-style text.
//! It never resolves branch targets or executes anything: decoding is a
//! pure function of the buffer.

pub mod classify;
pub mod decode;
pub mod fields;
pub mod instruction;
pub mod laws;
pub mod render;
pub mod resolve;

use vstd::prelude::*;

use crate::decode::{decode_all, spec_decode_all};
use crate::instruction::{DecodeError, DecodedInstruction};
use crate::render::{render_line, spec_render_line};

verus! {

/// The run configuration: the path of the file holding the instruction
/// stream, taken from the command line by the caller.
pub struct Config {
    pub path: String,
}

impl Config {
    /// Builds a configuration from the argument list: the first argument is
    /// the program name, the second the input path.
    pub fn build(args: &[String]) -> (r: Result<Config, &'static str>)
        ensures
            match r {
                Ok(c) => args@.len() >= 2 && c.path == args@[1],
                Err(m) => args@.len() < 2 && m@ == "not enough parameters"@,
            },
    {
        if args.len() < 2 {
            return Err("not enough parameters");
        }

        let path = args[1].clone();

        Ok(Config { path })
    }
}

/// Decodes the whole buffer from offset 0 and renders one line of text per
/// decoded instruction, in stream order. The first failing decode step
/// fails the whole run.
pub fn disassemble(buf: &[u8]) -> (r: Result<Vec<String>, DecodeError>)
    ensures
        match r {
            Ok(lines) => spec_decode_all(buf@, 0) is Ok && lines@.len() == spec_decode_all(
                buf@,
                0,
            )->Ok_0.len() && (forall|k: int|
                0 <= k < lines@.len() ==> lines@[k]@ == spec_render_line(
                    #[trigger] spec_decode_all(buf@, 0)->Ok_0[k],
                )),
            Err(e) => spec_decode_all(buf@, 0) == Err::<Seq<DecodedInstruction>, DecodeError>(e),
        },
{
    match decode_all(buf) {
        Err(e) => Err(e),
        Ok(instructions) => {
            let count = instructions.len();
            let mut lines: Vec<String> = Vec::new();
            let mut k: usize = 0;
            while k < count
                invariant
                    k <= count,
                    count == instructions@.len(),
                    spec_decode_all(buf@, 0) == Ok::<Seq<DecodedInstruction>, DecodeError>(
                        instructions@,
                    ),
                    lines@.len() == k,
                    forall|j: int|
                        0 <= j < k ==> lines@[j]@ == spec_render_line(#[trigger] instructions@[j]),
                decreases count - k,
            {
                let line = render_line(&instructions[k]);
                lines.push(line);
                k = k + 1;
            }
            Ok(lines)
        },
    }
}

} // verus!
