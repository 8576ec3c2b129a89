//! A disassembler for the MOV family of the 8086 instruction set.
//!
//! Raw machine-code bytes are decoded into [`instruction::Instruction`]
//! values, and each value is rendered as one line of assembly text.
//! [`dissassemble`] drives the decoder over a whole buffer.

use vstd::prelude::*;
use vstd::slice::slice_subrange;
use vstd::string::*;

use crate::error::DecodeError;
use crate::instruction::Instruction;

pub mod bits;
pub mod encoding;
pub mod error;
pub mod fields;
pub mod instruction;
pub mod mode;
pub mod mov;
pub mod register;
pub mod text;
pub mod value;

verus! {

/// The two lines that open every listing.
pub open spec fn header() -> Seq<char> {
    "bits 16\r\n\r\n"@
}

/// The instructions of a buffer in the order in which they are met: the
/// one at its start, then those of the bytes behind it, up to the end of
/// the buffer or the first position at which decoding fails.
pub open spec fn instructions(bytes: Seq<u8>) -> Seq<Instruction>
    decreases bytes.len(),
{
    match Instruction::spec_decode(bytes) {
        Ok(ins) => {
            if 0 < ins.size() <= bytes.len() {
                seq![ins] + instructions(bytes.skip(ins.size() as int))
            } else {
                Seq::empty()
            }
        },
        Err(_) => Seq::empty(),
    }
}

/// The lines of a sequence of instructions, one after the other.
pub open spec fn lines(instrs: Seq<Instruction>) -> Seq<char>
    decreases instrs.len(),
{
    if instrs.len() == 0 {
        Seq::empty()
    } else {
        instrs[0].text() + lines(instrs.skip(1))
    }
}

/// The number of bytes that a sequence of instructions takes.
pub open spec fn total_size(instrs: Seq<Instruction>) -> nat
    decreases instrs.len(),
{
    if instrs.len() == 0 {
        0
    } else {
        instrs[0].size() + total_size(instrs.skip(1))
    }
}

/// The listing of a buffer: the header, then one line for each of its
/// instructions.
pub open spec fn listing(bytes: Seq<u8>) -> Seq<char> {
    header() + lines(instructions(bytes))
}

/// Whether decoding reaches the end of the buffer without a failure: the
/// buffer is empty, or it begins with an instruction and the bytes behind
/// that instruction decode fully in turn.
pub open spec fn decodes_fully(bytes: Seq<u8>) -> bool
    decreases bytes.len(),
{
    bytes.len() == 0 || match Instruction::spec_decode(bytes) {
        Ok(ins) => 0 < ins.size() <= bytes.len() && decodes_fully(bytes.skip(ins.size() as int)),
        Err(_) => false,
    }
}

/// The instructions of a buffer that begins with a decodable instruction
/// are that instruction and those of the rest.
pub proof fn lemma_instructions_step(bytes: Seq<u8>, ins: Instruction)
    requires
        Instruction::spec_decode(bytes) == Ok::<Instruction, DecodeError>(ins),
        0 < ins.size() <= bytes.len(),
    ensures
        instructions(bytes) == seq![ins] + instructions(bytes.skip(ins.size() as int)),
        lines(instructions(bytes)) == ins.text() + lines(
            instructions(bytes.skip(ins.size() as int)),
        ),
        total_size(instructions(bytes)) == ins.size() + total_size(
            instructions(bytes.skip(ins.size() as int)),
        ),
{
    let rest = instructions(bytes.skip(ins.size() as int));
    let all = seq![ins] + rest;
    assert(all.skip(1) =~= rest);
}

/// The instructions of a buffer never take more bytes than the buffer
/// has.
pub proof fn lemma_total_size_within_buffer(bytes: Seq<u8>)
    ensures
        total_size(instructions(bytes)) <= bytes.len(),
    decreases bytes.len(),
{
    match Instruction::spec_decode(bytes) {
        Ok(ins) => {
            if 0 < ins.size() <= bytes.len() {
                lemma_instructions_step(bytes, ins);
                lemma_total_size_within_buffer(bytes.skip(ins.size() as int));
            }
        },
        Err(_) => {},
    }
}

/// The byte counts of the instructions add up to the length of the buffer
/// exactly when decoding reaches the end of the buffer without a failure.
pub proof fn lemma_sizes_add_up_to_length(bytes: Seq<u8>)
    ensures
        decodes_fully(bytes) <==> total_size(instructions(bytes)) == bytes.len(),
    decreases bytes.len(),
{
    match Instruction::spec_decode(bytes) {
        Ok(ins) => {
            if 0 < ins.size() <= bytes.len() {
                lemma_instructions_step(bytes, ins);
                lemma_sizes_add_up_to_length(bytes.skip(ins.size() as int));
            }
        },
        Err(_) => {},
    }
}

/// Every instruction of a buffer is well formed and takes at least one
/// byte.
pub proof fn lemma_instructions_are_well_formed(bytes: Seq<u8>, i: int)
    requires
        0 <= i < instructions(bytes).len(),
    ensures
        instructions(bytes)[i].wf(),
        instructions(bytes)[i].size() > 0,
    decreases bytes.len(),
{
    match Instruction::spec_decode(bytes) {
        Ok(ins) => {
            if 0 < ins.size() <= bytes.len() && i > 0 {
                lemma_instructions_are_well_formed(bytes.skip(ins.size() as int), i - 1);
            }
        },
        Err(_) => {},
    }
}

/// The listing is a function of the bytes: two listings of one buffer are
/// the same text.
pub proof fn lemma_listing_is_deterministic(
    a: Seq<u8>,
    b: Seq<u8>,
    first: Seq<char>,
    second: Seq<char>,
)
    requires
        a == b,
        first == listing(a),
        second == listing(b),
    ensures
        first == second,
{
}

/// Disassembles a buffer into a listing. Decoding stops at the end of the
/// buffer or at the first position at which no instruction can be decoded;
/// the listing of what was decoded until then is returned either way.
pub fn dissassemble(bytes: Vec<u8>) -> (result: Result<String, DecodeError>)
    ensures
        result matches Ok(text) && text@ == listing(bytes@),
{
    let mut res = "bits 16\r\n\r\n".to_owned();
    let mut offset: usize = 0;
    assert(bytes@.skip(0) =~= bytes@);
    while offset < bytes.len()
        invariant
            offset <= bytes.len(),
            listing(bytes@) == res@ + lines(instructions(bytes@.skip(offset as int))),
        decreases bytes.len() - offset,
    {
        let rest = slice_subrange(bytes.as_slice(), offset, bytes.len());
        match Instruction::decode(rest) {
            Ok(instruction) => {
                proof {
                    lemma_instructions_step(rest@, instruction);
                    assert(rest@.skip(instruction.size() as int) =~= bytes@.skip(
                        offset + instruction.size(),
                    ));
                }
                let line = instruction.to_string();
                res.append(line.as_str());
                offset += instruction.offset();
            },
            Err(_) => {
                return Ok(res);
            },
        }
    }
    Ok(res)
}

} // verus!
