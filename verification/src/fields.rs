//! The two leading bytes of a register-or-memory to or from register move
//! as raw bit fields, before any of them is given a meaning.

use vstd::prelude::*;

use crate::bits::{has_bits, mode_bits, mode_field, reg_bits, reg_field, rm_bits, rm_field};
use crate::error::DecodeError;
use crate::instruction::opcode::{MovType, OpCode};
use crate::mode::Mode;
use crate::mov::{failure, line, render_line, RegisterMemoryToFromRegister};
use crate::register::Register;

verus! {

/// The direction bit of an opcode byte, as a number.
pub open spec fn direction_field(byte: u8) -> u8 {
    (byte & 0b10) >> 1
}

/// The width bit of an opcode byte, as a number.
pub open spec fn width_field(byte: u8) -> u8 {
    byte & 0b01
}

/// The two flag fields are single bits, and they are set exactly when the
/// bits of their masks are.
pub proof fn lemma_flag_fields(byte: u8)
    ensures
        direction_field(byte) < 2,
        width_field(byte) < 2,
        direction_field(byte) == 1 <==> has_bits(byte, 0b10),
        width_field(byte) == 1 <==> has_bits(byte, 0b01),
{
    assert((byte & 0b10) >> 1 < 2) by (bit_vector);
    assert(byte & 0b01 < 2) by (bit_vector);
    assert((byte & 0b10) >> 1 == 1 <==> byte & 0b10 == 0b10) by (bit_vector);
    assert(byte & 0b01 == 1 <==> byte & 0b01 == 0b01) by (bit_vector);
}

/// The fields of the opcode byte `100010 d w`.
#[derive(Debug, Clone, Copy, PartialEq, Eq)]
pub struct OneByteInstruction {
    pub opcode: OpCode,
    pub d: u8,
    pub w: u8,
}

impl OneByteInstruction {
    /// The fields lie within their widths.
    pub open spec fn wf(self) -> bool {
        &&& self.opcode == OpCode::MOV(MovType::RegisterMemoryToFromRegister)
        &&& self.d < 2
        &&& self.w < 2
    }

    /// The fields of an opcode byte.
    pub open spec fn of_byte(byte: u8) -> Self {
        OneByteInstruction {
            opcode: OpCode::MOV(MovType::RegisterMemoryToFromRegister),
            d: direction_field(byte),
            w: width_field(byte),
        }
    }

    /// What splitting yields: the fields of the first byte where it opens
    /// a register-or-memory to or from register move.
    pub open spec fn spec_decode(bytes: Seq<u8>) -> Result<Self, DecodeError> {
        if bytes.len() == 0 || OpCode::of_byte(bytes[0]) != Some(
            MovType::RegisterMemoryToFromRegister,
        ) {
            Err(failure(bytes))
        } else {
            Ok(Self::of_byte(bytes[0]))
        }
    }

    /// Splits the opcode byte at the start of `bytes` into its fields.
    pub fn decode(bytes: &[u8]) -> (decoded: Result<Self, DecodeError>)
        ensures
            decoded == Self::spec_decode(bytes@),
            decoded matches Ok(fields) ==> fields.wf(),
    {
        if bytes.len() == 0 {
            return Err(DecodeError::Empty);
        }
        match OpCode::read_op_code(bytes[0]) {
            Ok(OpCode::MOV(MovType::RegisterMemoryToFromRegister)) => {
                proof {
                    lemma_flag_fields(bytes@[0]);
                }
                Ok(
                    OneByteInstruction {
                        opcode: OpCode::MOV(MovType::RegisterMemoryToFromRegister),
                        d: (bytes[0] & 0b10) >> 1,
                        w: bytes[0] & 0b01,
                    },
                )
            },
            _ => Err(DecodeError::Unsupported(bytes[0])),
        }
    }
}

/// The fields of the opcode byte `100010 d w` and of the byte
/// `mod reg r/m` behind it.
#[derive(Debug, Clone, Copy, PartialEq, Eq)]
pub struct TwoByteInstruction {
    pub opcode: OpCode,
    pub d: u8,
    pub w: u8,
    pub mode: u8,
    pub reg: u8,
    pub rm: u8,
}

impl TwoByteInstruction {
    /// The fields lie within their widths.
    pub open spec fn wf(self) -> bool {
        &&& self.opcode == OpCode::MOV(MovType::RegisterMemoryToFromRegister)
        &&& self.d < 2
        &&& self.w < 2
        &&& self.mode < 4
        &&& self.reg < 8
        &&& self.rm < 8
    }

    /// The fields of an opcode byte and a mod-reg-r/m byte.
    pub open spec fn of_bytes(first: u8, second: u8) -> Self {
        TwoByteInstruction {
            opcode: OpCode::MOV(MovType::RegisterMemoryToFromRegister),
            d: direction_field(first),
            w: width_field(first),
            mode: mode_field(second),
            reg: reg_field(second),
            rm: rm_field(second),
        }
    }

    /// What splitting yields: the fields of the two leading bytes where
    /// the first opens a register-or-memory to or from register move and a
    /// second follows.
    pub open spec fn spec_decode(bytes: Seq<u8>) -> Result<Self, DecodeError> {
        if bytes.len() < 2 || OpCode::of_byte(bytes[0]) != Some(
            MovType::RegisterMemoryToFromRegister,
        ) {
            Err(failure(bytes))
        } else {
            Ok(Self::of_bytes(bytes[0], bytes[1]))
        }
    }

    /// The line of assembly text of a move between two registers: the
    /// direction bit tells whether `reg` or `rm` is the destination, and
    /// the width bit gives both registers their names.
    pub open spec fn text(self) -> Seq<char> {
        let reg = Register::of_code(self.reg, self.w == 1).name();
        let rm = Register::of_code(self.rm, self.w == 1).name();
        if self.d == 1 {
            line(reg, rm)
        } else {
            line(rm, reg)
        }
    }

    /// The raw fields of a move between two registers give the line that
    /// the decoded instruction gives.
    pub proof fn lemma_text_of_register_move(bytes: Seq<u8>)
        requires
            Self::spec_decode(bytes) is Ok,
            mode_field(bytes[1]) == 0b11,
        ensures
            RegisterMemoryToFromRegister::spec_decode(bytes) matches Ok(ins) && ins.mode
                == Mode::Reg && ins.text() == Self::spec_decode(bytes)->Ok_0.text(),
    {
        lemma_flag_fields(bytes[0]);
    }

    /// Splits the two bytes at the start of `bytes` into their fields.
    pub fn decode(bytes: &[u8]) -> (decoded: Result<Self, DecodeError>)
        ensures
            decoded == Self::spec_decode(bytes@),
            decoded matches Ok(fields) ==> fields.wf(),
    {
        if bytes.len() == 0 {
            return Err(DecodeError::Empty);
        }
        match OpCode::read_op_code(bytes[0]) {
            Ok(OpCode::MOV(MovType::RegisterMemoryToFromRegister)) => {
                if bytes.len() < 2 {
                    return Err(DecodeError::Unsupported(bytes[0]));
                }
                proof {
                    lemma_flag_fields(bytes@[0]);
                }
                Ok(
                    TwoByteInstruction {
                        opcode: OpCode::MOV(MovType::RegisterMemoryToFromRegister),
                        d: (bytes[0] & 0b10) >> 1,
                        w: bytes[0] & 0b01,
                        mode: mode_bits(bytes[1]),
                        reg: reg_bits(bytes[1]),
                        rm: rm_bits(bytes[1]),
                    },
                )
            },
            _ => Err(DecodeError::Unsupported(bytes[0])),
        }
    }

    /// Renders a move between two registers as one line of assembly text.
    pub fn to_string(&self) -> (text: String)
        requires
            self.wf(),
            self.mode == 0b11,
        ensures
            text@ == self.text(),
    {
        let reg = Register::decode_reg(self.reg, self.w == 1).register_mode_to_string();
        let rm = Register::decode_reg(self.rm, self.w == 1).register_mode_to_string();
        let (dst, src) = if self.d == 1 {
            (reg, rm)
        } else {
            (rm, reg)
        };
        render_line(&dst, &src)
    }
}

} // verus!
