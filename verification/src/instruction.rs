//! The decoded instruction, and the dispatcher that tells the encodings
//! apart by the opcode byte.

use vstd::prelude::*;

use crate::error::DecodeError;
use crate::mov::{
    AccumulatorToMemory, ImmediateToRegister, ImmediateToRegisterMemory, MemoryToAccumulator,
    RegisterMemoryToFromRegister, RegisterMemoryToSegmentRegister,
    SegmentRegisterToRegisterMemory,
};
use opcode::{MovType, OpCode};

pub mod opcode;

verus! {

/// A decoded MOV instruction, one variant for each encoding.
#[derive(Debug, Clone, Copy, PartialEq, Eq)]
pub enum Instruction {
    RegisterMemoryToFromRegister(RegisterMemoryToFromRegister),
    ImmediateToRegisterMemory(ImmediateToRegisterMemory),
    ImmediateToRegister(ImmediateToRegister),
    MemoryToAccumulator(MemoryToAccumulator),
    AccumulatorToMemory(AccumulatorToMemory),
    RegisterMemoryToSegmentRegister(RegisterMemoryToSegmentRegister),
    SegmentRegisterToRegisterMemory(SegmentRegisterToRegisterMemory),
}

impl Instruction {
    /// Whether this is an instruction as decoding yields it: its fields
    /// agree with one another, and it is not one of the two
    /// segment-register forms, which carry no operands.
    pub open spec fn wf(self) -> bool {
        match self {
            Instruction::RegisterMemoryToFromRegister(i) => i.wf(),
            Instruction::ImmediateToRegisterMemory(i) => i.wf(),
            Instruction::ImmediateToRegister(i) => i.wf(),
            Instruction::MemoryToAccumulator(_) => true,
            Instruction::AccumulatorToMemory(_) => true,
            Instruction::RegisterMemoryToSegmentRegister(_) => false,
            Instruction::SegmentRegisterToRegisterMemory(_) => false,
        }
    }

    /// The encoding that this instruction has.
    pub open spec fn kind(self) -> MovType {
        match self {
            Instruction::RegisterMemoryToFromRegister(_) => MovType::RegisterMemoryToFromRegister,
            Instruction::ImmediateToRegisterMemory(_) => MovType::ImmediateToRegisterMemory,
            Instruction::ImmediateToRegister(_) => MovType::ImmediateToRegister,
            Instruction::MemoryToAccumulator(_) => MovType::MemoryToAccumulator,
            Instruction::AccumulatorToMemory(_) => MovType::AccumulatorToMemory,
            Instruction::RegisterMemoryToSegmentRegister(_) => {
                MovType::RegisterMemoryToSegmentRegister
            },
            Instruction::SegmentRegisterToRegisterMemory(_) => {
                MovType::SegmentRegisterToRegisterMemory
            },
        }
    }

    /// The number of bytes of the encoding; the segment-register forms,
    /// never decoded, have none.
    pub open spec fn size(self) -> nat {
        match self {
            Instruction::RegisterMemoryToFromRegister(i) => i.size(),
            Instruction::ImmediateToRegisterMemory(i) => i.size(),
            Instruction::ImmediateToRegister(i) => i.size(),
            Instruction::MemoryToAccumulator(i) => i.size(),
            Instruction::AccumulatorToMemory(i) => i.size(),
            Instruction::RegisterMemoryToSegmentRegister(_) => 0,
            Instruction::SegmentRegisterToRegisterMemory(_) => 0,
        }
    }

    /// The line of assembly text; the segment-register forms, never
    /// decoded, have none.
    pub open spec fn text(self) -> Seq<char> {
        match self {
            Instruction::RegisterMemoryToFromRegister(i) => i.text(),
            Instruction::ImmediateToRegisterMemory(i) => i.text(),
            Instruction::ImmediateToRegister(i) => i.text(),
            Instruction::MemoryToAccumulator(i) => i.text(),
            Instruction::AccumulatorToMemory(i) => i.text(),
            Instruction::RegisterMemoryToSegmentRegister(_) => Seq::empty(),
            Instruction::SegmentRegisterToRegisterMemory(_) => Seq::empty(),
        }
    }

    /// What decoding yields. An empty buffer is `Empty`. Otherwise the
    /// opcode byte selects the encoding, and the decoder of that encoding
    /// gives the instruction; a byte that selects none, a
    /// segment-register form, and a buffer that ends before the encoding
    /// does are all `Unsupported` with the opcode byte.
    pub open spec fn spec_decode(bytes: Seq<u8>) -> Result<Instruction, DecodeError> {
        if bytes.len() == 0 {
            Err(DecodeError::Empty)
        } else {
            match OpCode::of_byte(bytes[0]) {
                Some(MovType::RegisterMemoryToFromRegister) => {
                    match RegisterMemoryToFromRegister::spec_decode(bytes) {
                        Ok(i) => Ok(Instruction::RegisterMemoryToFromRegister(i)),
                        Err(e) => Err(e),
                    }
                },
                Some(MovType::ImmediateToRegisterMemory) => {
                    match ImmediateToRegisterMemory::spec_decode(bytes) {
                        Ok(i) => Ok(Instruction::ImmediateToRegisterMemory(i)),
                        Err(e) => Err(e),
                    }
                },
                Some(MovType::ImmediateToRegister) => {
                    match ImmediateToRegister::spec_decode(bytes) {
                        Ok(i) => Ok(Instruction::ImmediateToRegister(i)),
                        Err(e) => Err(e),
                    }
                },
                Some(MovType::MemoryToAccumulator) => {
                    match MemoryToAccumulator::spec_decode(bytes) {
                        Ok(i) => Ok(Instruction::MemoryToAccumulator(i)),
                        Err(e) => Err(e),
                    }
                },
                Some(MovType::AccumulatorToMemory) => {
                    match AccumulatorToMemory::spec_decode(bytes) {
                        Ok(i) => Ok(Instruction::AccumulatorToMemory(i)),
                        Err(e) => Err(e),
                    }
                },
                _ => Err(DecodeError::Unsupported(bytes[0])),
            }
        }
    }

    /// What holds of every decoded instruction: it is well formed, its
    /// encoding is the one that the opcode byte selects, and it takes at
    /// least one byte and no more bytes than the buffer has.
    pub proof fn lemma_decoded_is_well_formed(bytes: Seq<u8>)
        requires
            Instruction::spec_decode(bytes) is Ok,
        ensures
            Instruction::spec_decode(bytes)->Ok_0.wf(),
            0 < Instruction::spec_decode(bytes)->Ok_0.size() <= bytes.len(),
            OpCode::of_byte(bytes[0]) == Some(Instruction::spec_decode(bytes)->Ok_0.kind()),
    {
    }

    /// Decoding reads no byte behind the instruction: a buffer that agrees
    /// with `a` on the bytes of the instruction decoded from `a` decodes to
    /// the same instruction, whatever follows.
    pub proof fn lemma_decode_reads_only_its_bytes(a: Seq<u8>, b: Seq<u8>)
        requires
            Instruction::spec_decode(a) is Ok,
            Instruction::spec_decode(a)->Ok_0.size() <= b.len(),
            b.take(Instruction::spec_decode(a)->Ok_0.size() as int) == a.take(
                Instruction::spec_decode(a)->Ok_0.size() as int,
            ),
        ensures
            Instruction::spec_decode(b) == Instruction::spec_decode(a),
    {
        let n = Instruction::spec_decode(a)->Ok_0.size() as int;
        assert forall|i: int| 0 <= i < n implies a[i] == b[i] by {
            assert(b.take(n)[i] == b[i]);
        }
    }

    /// Decoding reads every byte of the instruction: no proper prefix of
    /// the bytes of a decoded instruction can be decoded.
    pub proof fn lemma_decode_needs_all_its_bytes(bytes: Seq<u8>, k: int)
        requires
            Instruction::spec_decode(bytes) is Ok,
            0 <= k < Instruction::spec_decode(bytes)->Ok_0.size(),
        ensures
            Instruction::spec_decode(bytes.take(k)) is Err,
    {
    }

    /// Decodes the instruction that `bytes` begins with. An empty buffer
    /// gives `Empty`; a buffer that begins with no supported instruction,
    /// or ends before the instruction does, gives `Unsupported` with its
    /// first byte.
    pub fn decode(bytes: &[u8]) -> (decoded: Result<Self, DecodeError>)
        ensures
            decoded == Instruction::spec_decode(bytes@),
            decoded matches Ok(ins) ==> ins.begins(bytes@),
            decoded is Err ==> forall|ins: Instruction| !#[trigger] ins.begins(bytes@),
            decoded == Err::<Self, DecodeError>(DecodeError::Empty) <==> bytes@.len() == 0,
            decoded matches Err(DecodeError::Unsupported(byte)) ==> bytes@.len() > 0 && byte
                == bytes@[0],
    {
        proof {
            Instruction::lemma_decode_is_exact(bytes@);
        }
        if bytes.len() == 0 {
            return Err(DecodeError::Empty);
        }
        match OpCode::read_op_code(bytes[0]) {
            Ok(OpCode::MOV(MovType::RegisterMemoryToFromRegister)) => {
                match RegisterMemoryToFromRegister::decode(bytes) {
                    Ok(i) => Ok(Instruction::RegisterMemoryToFromRegister(i)),
                    Err(e) => Err(e),
                }
            },
            Ok(OpCode::MOV(MovType::ImmediateToRegisterMemory)) => {
                match ImmediateToRegisterMemory::decode(bytes) {
                    Ok(i) => Ok(Instruction::ImmediateToRegisterMemory(i)),
                    Err(e) => Err(e),
                }
            },
            Ok(OpCode::MOV(MovType::ImmediateToRegister)) => {
                match ImmediateToRegister::decode(bytes) {
                    Ok(i) => Ok(Instruction::ImmediateToRegister(i)),
                    Err(e) => Err(e),
                }
            },
            Ok(OpCode::MOV(MovType::MemoryToAccumulator)) => {
                match MemoryToAccumulator::decode(bytes) {
                    Ok(i) => Ok(Instruction::MemoryToAccumulator(i)),
                    Err(e) => Err(e),
                }
            },
            Ok(OpCode::MOV(MovType::AccumulatorToMemory)) => {
                match AccumulatorToMemory::decode(bytes) {
                    Ok(i) => Ok(Instruction::AccumulatorToMemory(i)),
                    Err(e) => Err(e),
                }
            },
            Ok(OpCode::MOV(MovType::RegisterMemoryToSegmentRegister)) => {
                match RegisterMemoryToSegmentRegister::decode(bytes) {
                    Ok(i) => Ok(Instruction::RegisterMemoryToSegmentRegister(i)),
                    Err(e) => Err(e),
                }
            },
            Ok(OpCode::MOV(MovType::SegmentRegisterToRegisterMemory)) => {
                match SegmentRegisterToRegisterMemory::decode(bytes) {
                    Ok(i) => Ok(Instruction::SegmentRegisterToRegisterMemory(i)),
                    Err(e) => Err(e),
                }
            },
            Err(e) => Err(e),
        }
    }

    /// The number of bytes that the instruction takes.
    pub fn offset(&self) -> (len: usize)
        requires
            self.wf(),
        ensures
            len == self.size(),
    {
        match self {
            Instruction::RegisterMemoryToFromRegister(i) => i.offset(),
            Instruction::ImmediateToRegister(i) => i.offset(),
            Instruction::ImmediateToRegisterMemory(i) => i.offset(),
            Instruction::MemoryToAccumulator(i) => i.offset(),
            Instruction::AccumulatorToMemory(i) => i.offset(),
            Instruction::RegisterMemoryToSegmentRegister(_) => unreached(),
            Instruction::SegmentRegisterToRegisterMemory(_) => unreached(),
        }
    }

    /// Renders the instruction as one line of assembly text.
    pub fn to_string(&self) -> (text: String)
        requires
            self.wf(),
        ensures
            text@ == self.text(),
    {
        match self {
            Instruction::RegisterMemoryToFromRegister(i) => i.to_string(),
            Instruction::ImmediateToRegister(i) => i.to_string(),
            Instruction::ImmediateToRegisterMemory(i) => i.to_string(),
            Instruction::MemoryToAccumulator(i) => i.to_string(),
            Instruction::AccumulatorToMemory(i) => i.to_string(),
            Instruction::RegisterMemoryToSegmentRegister(_) => unreached(),
            Instruction::SegmentRegisterToRegisterMemory(_) => unreached(),
        }
    }
}

} // verus!
