//! The encodings read the other way: which bytes stand for an instruction.
//! Decoding is held against this reading, so that what the decoder yields
//! is exactly what the bytes stand for.

use vstd::prelude::*;

use crate::bits::{
    has_bits, high_byte, lemma_field_ranges, low_byte, mode_field, reg_field, rm_field,
};
use crate::error::DecodeError;
use crate::instruction::opcode::{MovType, OpCode};
use crate::instruction::Instruction;
use crate::mode::Mode;
use crate::mov::{
    AccumulatorToMemory, ImmediateToRegister, ImmediateToRegisterMemory, MemoryToAccumulator,
    RegisterMemoryToFromRegister,
};
use crate::register::Register;
use crate::value::Value;

verus! {

/// Whether the mod-reg-r/m byte of `bytes` and the bytes behind it stand
/// for the operand of the given mode, r/m code and displacement.
pub open spec fn holds_operand(
    bytes: Seq<u8>,
    mode: Mode,
    rm: Register,
    disp_lo: Option<u8>,
    disp_hi: Option<u8>,
) -> bool {
    &&& mode_field(bytes[1]) == mode.bits()
    &&& rm_field(bytes[1]) == rm.code()
    &&& disp_lo is Some ==> bytes[2] == disp_lo->0
    &&& disp_hi is Some ==> bytes[3] == disp_hi->0
}

/// Whether the bytes from index `at` on stand for the immediate: its one
/// byte, or its low byte and then its high byte.
pub open spec fn holds_value(bytes: Seq<u8>, at: int, data: Value) -> bool {
    match data {
        Value::Short(b) => bytes[at] == b,
        Value::Wide(x) => bytes[at] == low_byte(x) && bytes[at + 1] == high_byte(x),
    }
}

/// An immediate is read from exactly the bytes that stand for it.
pub proof fn lemma_value_read_iff_held(bytes: Seq<u8>, at: int, data: Value)
    requires
        0 <= at,
        at + data.len() <= bytes.len(),
    ensures
        Value::read(data.is_wide(), bytes.skip(at)) == data <==> holds_value(bytes, at, data),
{
}

/// A well-formed operand is decoded from exactly the mod-reg-r/m bytes
/// that stand for it.
pub proof fn lemma_operand_mode_iff_held(modrm: u8, w: bool, mode: Mode, rm: Register)
    requires
        rm.is_wide() == w,
        mode == mode.refined(rm),
        mode == Mode::DirectAddress ==> rm.code() == 0b110,
    ensures
        (Register::of_code(rm_field(modrm), w) == rm && Mode::resolved(mode_field(modrm), rm)
            == mode) <==> (mode_field(modrm) == mode.bits() && rm_field(modrm) == rm.code()),
{
    lemma_field_ranges(modrm);
}

/// A flag as a single bit.
pub open spec fn flag(set: bool) -> u8 {
    if set {
        1
    } else {
        0
    }
}

/// The mod-reg-r/m byte of the given fields.
pub open spec fn modrm_byte(mode_bits: u8, reg: u8, rm: u8) -> u8 {
    (mode_bits << 6) | (reg << 3) | rm
}

/// The displacement bytes in the order in which they follow the
/// mod-reg-r/m byte.
pub open spec fn displacement_bytes(disp_lo: Option<u8>, disp_hi: Option<u8>) -> Seq<u8> {
    match (disp_lo, disp_hi) {
        (Some(lo), Some(hi)) => seq![lo, hi],
        (Some(lo), None) => seq![lo],
        _ => Seq::empty(),
    }
}

/// The bytes of an immediate, low byte first.
pub open spec fn value_bytes(data: Value) -> Seq<u8> {
    match data {
        Value::Short(b) => seq![b],
        Value::Wide(x) => seq![low_byte(x), high_byte(x)],
    }
}

/// The fields of a mod-reg-r/m byte are those that it was made of.
pub proof fn lemma_modrm_byte_fields(mode_bits: u8, reg: u8, rm: u8)
    requires
        mode_bits < 4,
        reg < 8,
        rm < 8,
    ensures
        mode_field(modrm_byte(mode_bits, reg, rm)) == mode_bits,
        reg_field(modrm_byte(mode_bits, reg, rm)) == reg,
        rm_field(modrm_byte(mode_bits, reg, rm)) == rm,
{
    assert(mode_bits < 4 && reg < 8 && rm < 8 ==> ((mode_bits << 6) | (reg << 3) | rm) >> 6
        == mode_bits) by (bit_vector);
    assert(mode_bits < 4 && reg < 8 && rm < 8 ==> ((((mode_bits << 6) | (reg << 3) | rm) >> 3) & 7)
        == reg) by (bit_vector);
    assert(mode_bits < 4 && reg < 8 && rm < 8 ==> (((mode_bits << 6) | (reg << 3) | rm) & 7) == rm)
        by (bit_vector);
}

/// Two bytes with the same three fields are the same byte.
pub proof fn lemma_fields_determine_byte(a: u8, b: u8)
    requires
        mode_field(a) == mode_field(b),
        reg_field(a) == reg_field(b),
        rm_field(a) == rm_field(b),
    ensures
        a == b,
{
    assert(a >> 6 == b >> 6 && (a >> 3) & 7 == (b >> 3) & 7 && a & 7 == b & 7 ==> a == b)
        by (bit_vector);
}

/// What the opcode bytes made of a pattern and the bits behind it hold.
pub proof fn lemma_opcode_bytes(d: u8, w: u8, reg: u8)
    requires
        d < 2,
        w < 2,
        reg < 8,
    ensures
        0x88 <= (0x88u8 | (d << 1) | w) <= 0x8B,
        has_bits(0x88u8 | (d << 1) | w, 0b10) <==> d == 1,
        has_bits(0x88u8 | (d << 1) | w, 0b01) <==> w == 1,
        0xB0 <= (0xB0u8 | (w << 3) | reg) <= 0xBF,
        has_bits(0xB0u8 | (w << 3) | reg, 0b1000) <==> w == 1,
        rm_field(0xB0u8 | (w << 3) | reg) == reg,
        0xC6 <= (0xC6u8 | w) <= 0xC7,
        has_bits(0xC6u8 | w, 0b01) <==> w == 1,
        0xA0 <= (0xA0u8 | w) <= 0xA1,
        has_bits(0xA0u8 | w, 0b01) <==> w == 1,
        0xA2 <= (0xA2u8 | w) <= 0xA3,
        has_bits(0xA2u8 | w, 0b01) <==> w == 1,
{
    assert(d < 2 && w < 2 ==> 0x88 <= (0x88u8 | (d << 1) | w) <= 0x8B && (((0x88u8 | (d << 1) | w)
        & 0b10 == 0b10) <==> d == 1) && (((0x88u8 | (d << 1) | w) & 0b01 == 0b01) <==> w == 1))
        by (bit_vector);
    assert(w < 2 && reg < 8 ==> 0xB0 <= (0xB0u8 | (w << 3) | reg) <= 0xBF && (((0xB0u8 | (w << 3)
        | reg) & 0b1000 == 0b1000) <==> w == 1) && ((0xB0u8 | (w << 3) | reg) & 7) == reg)
        by (bit_vector);
    assert(w < 2 ==> 0xC6 <= (0xC6u8 | w) <= 0xC7 && (((0xC6u8 | w) & 0b01 == 0b01) <==> w == 1))
        by (bit_vector);
    assert(w < 2 ==> 0xA0 <= (0xA0u8 | w) <= 0xA1 && (((0xA0u8 | w) & 0b01 == 0b01) <==> w == 1))
        by (bit_vector);
    assert(w < 2 ==> 0xA2 <= (0xA2u8 | w) <= 0xA3 && (((0xA2u8 | w) & 0b01 == 0b01) <==> w == 1))
        by (bit_vector);
}

/// Two opcode bytes of one encoding with the same bits behind the
/// pattern are the same byte.
pub proof fn lemma_opcode_byte_determined(a: u8, b: u8)
    requires
        OpCode::of_byte(a) == OpCode::of_byte(b),
        OpCode::of_byte(a) is Some,
        OpCode::of_byte(a) != Some(MovType::ImmediateToRegister) ==> has_bits(a, 0b01) == has_bits(
            b,
            0b01,
        ),
        OpCode::of_byte(a) == Some(MovType::RegisterMemoryToFromRegister) ==> has_bits(a, 0b10)
            == has_bits(b, 0b10),
        OpCode::of_byte(a) == Some(MovType::ImmediateToRegister) ==> has_bits(a, 0b1000)
            == has_bits(b, 0b1000) && rm_field(a) == rm_field(b),
    ensures
        a == b,
{
    OpCode::lemma_of_byte(a);
    OpCode::lemma_of_byte(b);
    assert(0x88 <= a <= 0x8B && 0x88 <= b <= 0x8B && ((a & 0b01 == 0b01) == (b & 0b01 == 0b01))
        && ((a & 0b10 == 0b10) == (b & 0b10 == 0b10)) ==> a == b) by (bit_vector);
    assert(0xB0 <= a <= 0xBF && 0xB0 <= b <= 0xBF && ((a & 0b1000 == 0b1000) == (b & 0b1000
        == 0b1000)) && (a & 7 == b & 7) ==> a == b) by (bit_vector);
    assert(0xC6 <= a <= 0xC7 && 0xC6 <= b <= 0xC7 && ((a & 0b01 == 0b01) == (b & 0b01 == 0b01))
        ==> a == b) by (bit_vector);
    assert(0xA0 <= a <= 0xA1 && 0xA0 <= b <= 0xA1 && ((a & 0b01 == 0b01) == (b & 0b01 == 0b01))
        ==> a == b) by (bit_vector);
    assert(0xA2 <= a <= 0xA3 && 0xA2 <= b <= 0xA3 && ((a & 0b01 == 0b01) == (b & 0b01 == 0b01))
        ==> a == b) by (bit_vector);
}

impl RegisterMemoryToFromRegister {
    /// Whether the leading bytes of `bytes` stand for this instruction.
    pub open spec fn encoded_in(self, bytes: Seq<u8>) -> bool {
        &&& has_bits(bytes[0], 0b10) == self.d
        &&& has_bits(bytes[0], 0b01) == self.w
        &&& reg_field(bytes[1]) == self.reg.code()
        &&& holds_operand(bytes, self.mode, self.rm, self.disp_lo, self.disp_hi)
    }

    /// Decoding yields an instruction exactly when the instruction is
    /// well formed and the leading bytes of the buffer stand for it.
    pub proof fn lemma_decoded_iff_encoded(self, bytes: Seq<u8>)
        ensures
            Self::spec_decode(bytes) == Ok::<Self, DecodeError>(self) <==> self.wf() && self.size()
                <= bytes.len() && self.encoded_in(bytes),
    {
        if bytes.len() >= 2 {
            lemma_field_ranges(bytes[1]);
        }
    }

    /// The bytes of this instruction.
    pub open spec fn encoding(self) -> Seq<u8> {
        seq![
            0x88u8 | (flag(self.d) << 1) | flag(self.w),
            modrm_byte(self.mode.bits(), self.reg.code(), self.rm.code()),
        ] + displacement_bytes(self.disp_lo, self.disp_hi)
    }

    /// The bytes of a well-formed instruction are as many as its size
    /// says, and they stand for the instruction.
    pub proof fn lemma_encoding_stands_for_instruction(self)
        requires
            self.wf(),
        ensures
            self.encoding().len() == self.size(),
            self.encoded_in(self.encoding()),
            OpCode::of_byte(self.encoding()[0]) == Some(MovType::RegisterMemoryToFromRegister),
    {
        let bytes = self.encoding();
        lemma_opcode_bytes(flag(self.d), flag(self.w), 0);
        OpCode::lemma_of_byte(bytes[0]);
        lemma_modrm_byte_fields(self.mode.bits(), self.reg.code(), self.rm.code());
    }
}

impl ImmediateToRegister {
    /// Whether the leading bytes of `bytes` stand for this instruction.
    pub open spec fn encoded_in(self, bytes: Seq<u8>) -> bool {
        &&& has_bits(bytes[0], 0b1000) == self.w
        &&& rm_field(bytes[0]) == self.reg.code()
        &&& holds_value(bytes, 1, self.data)
    }

    /// Decoding yields an instruction exactly when the instruction is
    /// well formed and the leading bytes of the buffer stand for it.
    pub proof fn lemma_decoded_iff_encoded(self, bytes: Seq<u8>)
        ensures
            Self::spec_decode(bytes) == Ok::<Self, DecodeError>(self) <==> self.wf() && self.size()
                <= bytes.len() && self.encoded_in(bytes),
    {
        if bytes.len() >= 2 {
            lemma_field_ranges(bytes[0]);
        }
    }

    /// The bytes of this instruction.
    pub open spec fn encoding(self) -> Seq<u8> {
        seq![0xB0u8 | (flag(self.w) << 3) | self.reg.code()] + value_bytes(self.data)
    }

    /// The bytes of a well-formed instruction are as many as its size
    /// says, and they stand for the instruction.
    pub proof fn lemma_encoding_stands_for_instruction(self)
        requires
            self.wf(),
        ensures
            self.encoding().len() == self.size(),
            self.encoded_in(self.encoding()),
            OpCode::of_byte(self.encoding()[0]) == Some(MovType::ImmediateToRegister),
    {
        let bytes = self.encoding();
        lemma_opcode_bytes(0, flag(self.w), self.reg.code());
        OpCode::lemma_of_byte(bytes[0]);
    }
}

impl ImmediateToRegisterMemory {
    /// Whether the leading bytes of `bytes` stand for this instruction.
    /// The register bits of the mod-reg-r/m byte are not read.
    pub open spec fn encoded_in(self, bytes: Seq<u8>) -> bool {
        &&& has_bits(bytes[0], 0b01) == self.w
        &&& holds_operand(bytes, self.mode, self.rm, self.disp_lo, self.disp_hi)
        &&& holds_value(bytes, 2 + self.mode.displacement_len() as int, self.data)
    }

    /// Decoding yields an instruction exactly when the instruction is
    /// well formed and the leading bytes of the buffer stand for it.
    pub proof fn lemma_decoded_iff_encoded(self, bytes: Seq<u8>)
        ensures
            Self::spec_decode(bytes) == Ok::<Self, DecodeError>(self) <==> self.wf() && self.size()
                <= bytes.len() && self.encoded_in(bytes),
    {
        if bytes.len() >= 2 && self.wf() {
            lemma_operand_mode_iff_held(bytes[1], self.w, self.mode, self.rm);
            if self.size() <= bytes.len() {
                lemma_value_read_iff_held(
                    bytes,
                    2 + self.mode.displacement_len() as int,
                    self.data,
                );
            }
        }
    }

    /// The bytes of this instruction, with zeros for the register bits of
    /// the mod-reg-r/m byte.
    pub open spec fn encoding(self) -> Seq<u8> {
        seq![0xC6u8 | flag(self.w), modrm_byte(self.mode.bits(), 0, self.rm.code())]
            + displacement_bytes(self.disp_lo, self.disp_hi) + value_bytes(self.data)
    }

    /// The bytes of a well-formed instruction are as many as its size
    /// says, and they stand for the instruction.
    pub proof fn lemma_encoding_stands_for_instruction(self)
        requires
            self.wf(),
        ensures
            self.encoding().len() == self.size(),
            self.encoded_in(self.encoding()),
            OpCode::of_byte(self.encoding()[0]) == Some(MovType::ImmediateToRegisterMemory),
            reg_field(self.encoding()[1]) == 0,
    {
        let bytes = self.encoding();
        lemma_opcode_bytes(0, flag(self.w), 0);
        OpCode::lemma_of_byte(bytes[0]);
        lemma_modrm_byte_fields(self.mode.bits(), 0, self.rm.code());
    }
}

impl MemoryToAccumulator {
    /// Whether the leading bytes of `bytes` stand for this instruction.
    pub open spec fn encoded_in(self, bytes: Seq<u8>) -> bool {
        &&& has_bits(bytes[0], 0b01) == self.w
        &&& bytes[1] == self.addr_lo
        &&& bytes[2] == self.addr_hi
    }

    /// Decoding yields an instruction exactly when the leading bytes of
    /// the buffer stand for it.
    pub proof fn lemma_decoded_iff_encoded(self, bytes: Seq<u8>)
        ensures
            Self::spec_decode(bytes) == Ok::<Self, DecodeError>(self) <==> self.size()
                <= bytes.len() && self.encoded_in(bytes),
    {
    }

    /// The bytes of this instruction.
    pub open spec fn encoding(self) -> Seq<u8> {
        seq![0xA0u8 | flag(self.w), self.addr_lo, self.addr_hi]
    }

    /// The bytes of an instruction are as many as its size says, and they
    /// stand for the instruction.
    pub proof fn lemma_encoding_stands_for_instruction(self)
        ensures
            self.encoding().len() == self.size(),
            self.encoded_in(self.encoding()),
            OpCode::of_byte(self.encoding()[0]) == Some(MovType::MemoryToAccumulator),
    {
        let bytes = self.encoding();
        lemma_opcode_bytes(0, flag(self.w), 0);
        OpCode::lemma_of_byte(bytes[0]);
    }
}

impl AccumulatorToMemory {
    /// Whether the leading bytes of `bytes` stand for this instruction.
    pub open spec fn encoded_in(self, bytes: Seq<u8>) -> bool {
        &&& has_bits(bytes[0], 0b01) == self.w
        &&& bytes[1] == self.addr_lo
        &&& bytes[2] == self.addr_hi
    }

    /// Decoding yields an instruction exactly when the leading bytes of
    /// the buffer stand for it.
    pub proof fn lemma_decoded_iff_encoded(self, bytes: Seq<u8>)
        ensures
            Self::spec_decode(bytes) == Ok::<Self, DecodeError>(self) <==> self.size()
                <= bytes.len() && self.encoded_in(bytes),
    {
    }

    /// The bytes of this instruction.
    pub open spec fn encoding(self) -> Seq<u8> {
        seq![0xA2u8 | flag(self.w), self.addr_lo, self.addr_hi]
    }

    /// The bytes of an instruction are as many as its size says, and they
    /// stand for the instruction.
    pub proof fn lemma_encoding_stands_for_instruction(self)
        ensures
            self.encoding().len() == self.size(),
            self.encoded_in(self.encoding()),
            OpCode::of_byte(self.encoding()[0]) == Some(MovType::AccumulatorToMemory),
    {
        let bytes = self.encoding();
        lemma_opcode_bytes(0, flag(self.w), 0);
        OpCode::lemma_of_byte(bytes[0]);
    }
}

impl Instruction {
    /// Whether the leading bytes of `bytes` stand for this instruction:
    /// the opcode byte selects its encoding, and the fields behind the
    /// opcode bits are those of the instruction. No bytes stand for a
    /// segment-register form.
    pub open spec fn encoded_in(self, bytes: Seq<u8>) -> bool {
        &&& OpCode::of_byte(bytes[0]) == Some(self.kind())
        &&& match self {
            Instruction::RegisterMemoryToFromRegister(i) => i.encoded_in(bytes),
            Instruction::ImmediateToRegisterMemory(i) => i.encoded_in(bytes),
            Instruction::ImmediateToRegister(i) => i.encoded_in(bytes),
            Instruction::MemoryToAccumulator(i) => i.encoded_in(bytes),
            Instruction::AccumulatorToMemory(i) => i.encoded_in(bytes),
            Instruction::RegisterMemoryToSegmentRegister(_) => false,
            Instruction::SegmentRegisterToRegisterMemory(_) => false,
        }
    }

    /// Decoding yields an instruction exactly when the instruction is
    /// well formed, the buffer holds all its bytes, and the leading bytes
    /// of the buffer stand for it.
    pub proof fn lemma_decoded_iff_encoded(self, bytes: Seq<u8>)
        ensures
            Instruction::spec_decode(bytes) == Ok::<Instruction, DecodeError>(self) <==> self.wf()
                && 0 < self.size() <= bytes.len() && self.encoded_in(bytes),
    {
        match self {
            Instruction::RegisterMemoryToFromRegister(i) => i.lemma_decoded_iff_encoded(bytes),
            Instruction::ImmediateToRegisterMemory(i) => i.lemma_decoded_iff_encoded(bytes),
            Instruction::ImmediateToRegister(i) => i.lemma_decoded_iff_encoded(bytes),
            Instruction::MemoryToAccumulator(i) => i.lemma_decoded_iff_encoded(bytes),
            Instruction::AccumulatorToMemory(i) => i.lemma_decoded_iff_encoded(bytes),
            _ => {},
        }
    }

    /// Whether the buffer begins with this instruction: the instruction is
    /// well formed, the buffer holds all its bytes, and its leading bytes
    /// stand for it.
    pub open spec fn begins(self, bytes: Seq<u8>) -> bool {
        &&& self.wf()
        &&& 0 < self.size() <= bytes.len()
        &&& self.encoded_in(bytes)
    }

    /// Decoding yields the instruction that the buffer begins with, and
    /// fails exactly when the buffer begins with none.
    pub proof fn lemma_decode_is_exact(bytes: Seq<u8>)
        ensures
            Instruction::spec_decode(bytes) matches Ok(ins) ==> ins.begins(bytes),
            Instruction::spec_decode(bytes) is Err ==> forall|ins: Instruction|
                !#[trigger] ins.begins(bytes),
    {
        match Instruction::spec_decode(bytes) {
            Ok(ins) => ins.lemma_decoded_iff_encoded(bytes),
            Err(_) => {
                assert forall|ins: Instruction| !#[trigger] ins.begins(bytes) by {
                    ins.lemma_decoded_iff_encoded(bytes);
                }
            },
        }
    }

    /// A buffer begins with at most one instruction.
    pub proof fn lemma_encoding_is_unambiguous(
        bytes: Seq<u8>,
        first: Instruction,
        second: Instruction,
    )
        requires
            first.begins(bytes),
            second.begins(bytes),
        ensures
            first == second,
    {
        first.lemma_decoded_iff_encoded(bytes);
        second.lemma_decoded_iff_encoded(bytes);
    }

    /// The bytes of this instruction; a segment-register form has none.
    pub open spec fn encoding(self) -> Seq<u8> {
        match self {
            Instruction::RegisterMemoryToFromRegister(i) => i.encoding(),
            Instruction::ImmediateToRegisterMemory(i) => i.encoding(),
            Instruction::ImmediateToRegister(i) => i.encoding(),
            Instruction::MemoryToAccumulator(i) => i.encoding(),
            Instruction::AccumulatorToMemory(i) => i.encoding(),
            Instruction::RegisterMemoryToSegmentRegister(_) => Seq::empty(),
            Instruction::SegmentRegisterToRegisterMemory(_) => Seq::empty(),
        }
    }

    /// Whether the buffer begins with an immediate-to-register-or-memory
    /// move whose mod-reg-r/m byte has register bits other than zero. The
    /// decoder does not read those bits, so they are the one part of an
    /// instruction's bytes that the instruction does not keep.
    pub open spec fn has_unread_bits(bytes: Seq<u8>) -> bool {
        &&& bytes.len() >= 2
        &&& OpCode::of_byte(bytes[0]) == Some(MovType::ImmediateToRegisterMemory)
        &&& reg_field(bytes[1]) != 0
    }

    /// The bytes of a well-formed instruction decode to the instruction.
    pub proof fn lemma_encoding_decodes(self)
        requires
            self.wf(),
        ensures
            self.encoding().len() == self.size(),
            Instruction::spec_decode(self.encoding()) == Ok::<Instruction, DecodeError>(self),
    {
        match self {
            Instruction::RegisterMemoryToFromRegister(i) => {
                i.lemma_encoding_stands_for_instruction()
            },
            Instruction::ImmediateToRegisterMemory(i) => i.lemma_encoding_stands_for_instruction(),
            Instruction::ImmediateToRegister(i) => i.lemma_encoding_stands_for_instruction(),
            Instruction::MemoryToAccumulator(i) => i.lemma_encoding_stands_for_instruction(),
            Instruction::AccumulatorToMemory(i) => i.lemma_encoding_stands_for_instruction(),
            _ => {},
        }
    }

    /// The bytes that decoding takes are the bytes of the decoded
    /// instruction, unless the buffer has bits that the decoder does not
    /// read.
    pub proof fn lemma_decoded_bytes_are_encoding(bytes: Seq<u8>)
        requires
            Instruction::spec_decode(bytes) is Ok,
            !Instruction::has_unread_bits(bytes),
        ensures
            bytes.take(Instruction::spec_decode(bytes)->Ok_0.size() as int)
                == Instruction::spec_decode(bytes)->Ok_0.encoding(),
    {
        let ins = Instruction::spec_decode(bytes)->Ok_0;
        let made = ins.encoding();
        ins.lemma_decoded_iff_encoded(bytes);
        ins.lemma_encoding_decodes();
        ins.lemma_decoded_iff_encoded(made);
        match ins {
            Instruction::RegisterMemoryToFromRegister(i) => {
                lemma_opcode_byte_determined(bytes[0], made[0]);
                lemma_fields_determine_byte(bytes[1], made[1]);
            },
            Instruction::ImmediateToRegisterMemory(i) => {
                i.lemma_encoding_stands_for_instruction();
                lemma_opcode_byte_determined(bytes[0], made[0]);
                lemma_fields_determine_byte(bytes[1], made[1]);
            },
            Instruction::ImmediateToRegister(i) => {
                lemma_opcode_byte_determined(bytes[0], made[0]);
            },
            Instruction::MemoryToAccumulator(i) => {
                lemma_opcode_byte_determined(bytes[0], made[0]);
            },
            Instruction::AccumulatorToMemory(i) => {
                lemma_opcode_byte_determined(bytes[0], made[0]);
            },
            _ => {},
        }
    }
}

} // verus!
