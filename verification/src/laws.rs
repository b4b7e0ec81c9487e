//! Laws of the decode loop: decoding never leaves a gap or an overlap
//! between instructions, and a buffer built by concatenating whole
//! instruction encodings decodes to exactly one record per encoding.

use vstd::prelude::*;

use crate::decode::{lemma_decode_step_bounds, spec_decode, spec_decode_all};
use crate::instruction::DecodedInstruction;

verus! {

/// The total number of bytes a sequence of decoded instructions consumed.
pub open spec fn spec_total_length(s: Seq<DecodedInstruction>) -> int
    decreases s.len(),
{
    if s.len() == 0 {
        0
    } else {
        s[0].len_bytes() + spec_total_length(s.drop_first())
    }
}

/// Law: a decode that reaches the end of the buffer consumes it exactly:
/// the consumed lengths of the decoded instructions sum to the number of
/// bytes from the starting position to the end, with no gap and no overlap.
pub proof fn lemma_decode_consumes_exactly(buf: Seq<u8>, pos: int)
    requires
        0 <= pos <= buf.len(),
        spec_decode_all(buf, pos) is Ok,
    ensures
        spec_total_length(spec_decode_all(buf, pos)->Ok_0) == buf.len() - pos,
    decreases buf.len() - pos,
{
    if pos < buf.len() {
        let inst = spec_decode(buf, pos)->Ok_0;
        lemma_decode_step_bounds(buf, pos);
        lemma_decode_consumes_exactly(buf, pos + inst.len_bytes());
        let rest = spec_decode_all(buf, pos + inst.len_bytes())->Ok_0;
        assert((seq![inst] + rest)[0] == inst);
        assert((seq![inst] + rest).drop_first() =~= rest);
    }
}

/// A whole single-instruction encoding: a fragment that one decode step
/// consumes exactly.
pub open spec fn is_instruction_encoding(frag: Seq<u8>) -> bool {
    match spec_decode(frag, 0) {
        Ok(inst) => inst.len_bytes() == frag.len(),
        Err(_) => false,
    }
}

/// A decode step reads only the bytes of the instruction it decodes: bytes
/// appended after them change nothing.
pub proof fn lemma_decode_step_extension(a: Seq<u8>, b: Seq<u8>, pos: int)
    requires
        0 <= pos < a.len(),
        spec_decode(a, pos) is Ok,
    ensures
        spec_decode(a + b, pos) == spec_decode(a, pos),
{
    assert((a + b).len() == a.len() + b.len());
    assert(forall|k: int| 0 <= k < a.len() ==> (a + b)[k] == a[k]);
}

/// A decode step that succeeds at a position in `b` succeeds on the same
/// bytes shifted behind a prefix `a`, with the same result.
pub proof fn lemma_decode_step_shift(a: Seq<u8>, b: Seq<u8>, pos: int)
    requires
        0 <= pos < b.len(),
        spec_decode(b, pos) is Ok,
    ensures
        spec_decode(a + b, a.len() + pos) == spec_decode(b, pos),
{
    assert((a + b).len() == a.len() + b.len());
    assert(forall|k: int| 0 <= k < b.len() ==> (a + b)[a.len() + k] == b[k]);
}

/// A whole decode that succeeds on `b` succeeds on the same bytes shifted
/// behind a prefix `a`, with the same instructions.
pub proof fn lemma_decode_all_shift(a: Seq<u8>, b: Seq<u8>, pos: int)
    requires
        0 <= pos <= b.len(),
        spec_decode_all(b, pos) is Ok,
    ensures
        spec_decode_all(a + b, a.len() + pos) == spec_decode_all(b, pos),
    decreases b.len() - pos,
{
    assert((a + b).len() == a.len() + b.len());
    if pos < b.len() {
        let inst = spec_decode(b, pos)->Ok_0;
        lemma_decode_step_shift(a, b, pos);
        lemma_decode_step_bounds(b, pos);
        lemma_decode_step_bounds(a + b, a.len() + pos);
        lemma_decode_all_shift(a, b, pos + inst.len_bytes());
    }
}

/// Prepending one whole instruction encoding to a buffer that decodes
/// prepends exactly its one instruction to the decoded sequence.
pub proof fn lemma_decode_all_of_concat(frag: Seq<u8>, rest: Seq<u8>)
    requires
        is_instruction_encoding(frag),
        spec_decode_all(rest, 0) is Ok,
    ensures
        spec_decode_all(frag + rest, 0) == Ok::<Seq<DecodedInstruction>, crate::instruction::DecodeError>(
            seq![spec_decode(frag, 0)->Ok_0] + spec_decode_all(rest, 0)->Ok_0,
        ),
{
    let inst = spec_decode(frag, 0)->Ok_0;
    if frag.len() == 0 {
        assert(spec_decode(frag, 0) is Err);
    }
    lemma_decode_step_bounds(frag, 0);
    lemma_decode_step_extension(frag, rest, 0);
    lemma_decode_all_shift(frag, rest, 0);
    assert(spec_decode_all(frag + rest, inst.len_bytes() as int) == spec_decode_all(rest, 0));
}

/// Law: a buffer composed solely of concatenations of whole instruction
/// encodings decodes without failure into exactly one instruction per
/// encoding, in order, and the decoded lengths consume the buffer exactly.
pub proof fn lemma_stream_of_encodings_decodes(frags: Seq<Seq<u8>>)
    requires
        forall|k: int| 0 <= k < frags.len() ==> is_instruction_encoding(#[trigger] frags[k]),
    ensures
        spec_decode_all(frags.flatten(), 0) == Ok::<Seq<DecodedInstruction>, crate::instruction::DecodeError>(
            frags.map_values(|frag: Seq<u8>| spec_decode(frag, 0)->Ok_0),
        ),
        spec_total_length(frags.map_values(|frag: Seq<u8>| spec_decode(frag, 0)->Ok_0))
            == frags.flatten().len(),
    decreases frags.len(),
{
    let decoded = frags.map_values(|frag: Seq<u8>| spec_decode(frag, 0)->Ok_0);
    if frags.len() == 0 {
        assert(frags.flatten() =~= Seq::<u8>::empty());
        assert(decoded =~= Seq::<DecodedInstruction>::empty());
    } else {
        let tail = frags.drop_first();
        lemma_stream_of_encodings_decodes(tail);
        lemma_decode_all_of_concat(frags[0], tail.flatten());
        assert(frags.flatten() == frags[0] + tail.flatten());
        let tail_decoded = tail.map_values(|frag: Seq<u8>| spec_decode(frag, 0)->Ok_0);
        assert(decoded =~= seq![spec_decode(frags[0], 0)->Ok_0] + tail_decoded);
        lemma_decode_consumes_exactly(frags.flatten(), 0);
    }
}

} // verus!
