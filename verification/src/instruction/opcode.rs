//! Classification of the opcode byte.

use vstd::prelude::*;

use crate::error::DecodeError;

verus! {

/// The encodings of MOV that the opcode byte tells apart.
#[derive(Debug, Clone, Copy, PartialEq, Eq, Structural)]
pub enum MovType {
    RegisterMemoryToFromRegister,
    ImmediateToRegisterMemory,
    ImmediateToRegister,
    MemoryToAccumulator,
    AccumulatorToMemory,
    RegisterMemoryToSegmentRegister,
    SegmentRegisterToRegisterMemory,
}

/// The operation that an opcode byte selects.
#[derive(Debug, Clone, Copy, PartialEq, Eq, Structural)]
pub enum OpCode {
    MOV(MovType),
}

/// One row of the opcode table: the encoding whose opcode byte begins with
/// the `width` bits of `pattern`.
#[derive(Debug, Clone, Copy, PartialEq, Eq)]
pub struct Pattern {
    pub width: u8,
    pub pattern: u8,
    pub kind: MovType,
}

impl Pattern {
    /// Whether the leading `width` bits of `byte` are those of `pattern`.
    pub open spec fn matches(self, byte: u8) -> bool {
        byte >> ((8 - self.width) as u8) == self.pattern
    }
}

impl OpCode {
    /// The opcode table, in the order in which its rows are tried: the
    /// full-byte patterns first, then those of seven, six and four bits.
    pub open spec fn table() -> Seq<Pattern> {
        seq![
            Pattern {
                width: 8,
                pattern: 0b10001110,
                kind: MovType::RegisterMemoryToSegmentRegister,
            },
            Pattern {
                width: 8,
                pattern: 0b10001100,
                kind: MovType::SegmentRegisterToRegisterMemory,
            },
            Pattern { width: 7, pattern: 0b1100011, kind: MovType::ImmediateToRegisterMemory },
            Pattern { width: 7, pattern: 0b1010000, kind: MovType::MemoryToAccumulator },
            Pattern { width: 7, pattern: 0b1010001, kind: MovType::AccumulatorToMemory },
            Pattern { width: 6, pattern: 0b100010, kind: MovType::RegisterMemoryToFromRegister },
            Pattern { width: 4, pattern: 0b1011, kind: MovType::ImmediateToRegister },
        ]
    }

    /// The encoding of the first row, from row `from` on, that matches
    /// `byte`.
    pub open spec fn first_match(byte: u8, from: int) -> Option<MovType>
        decreases OpCode::table().len() - from,
    {
        if from < 0 || from >= OpCode::table().len() {
            None
        } else if OpCode::table()[from].matches(byte) {
            Some(OpCode::table()[from].kind)
        } else {
            OpCode::first_match(byte, from + 1)
        }
    }

    /// The encoding that an opcode byte selects: that of the first row of
    /// the table that matches it.
    pub open spec fn of_byte(byte: u8) -> Option<MovType> {
        OpCode::first_match(byte, 0)
    }

    /// What classifying an opcode byte yields.
    pub open spec fn classified(byte: u8) -> Result<OpCode, DecodeError> {
        match OpCode::of_byte(byte) {
            Some(kind) => Ok(OpCode::MOV(kind)),
            None => Err(DecodeError::Unsupported(byte)),
        }
    }

    /// The opcode bytes of each encoding, row by row: a row of fewer than
    /// eight bits stands for a run of consecutive bytes.
    pub open spec fn of_byte_ranges(byte: u8) -> Option<MovType> {
        if byte == 0x8E {
            Some(MovType::RegisterMemoryToSegmentRegister)
        } else if byte == 0x8C {
            Some(MovType::SegmentRegisterToRegisterMemory)
        } else if 0xC6 <= byte <= 0xC7 {
            Some(MovType::ImmediateToRegisterMemory)
        } else if 0xA0 <= byte <= 0xA1 {
            Some(MovType::MemoryToAccumulator)
        } else if 0xA2 <= byte <= 0xA3 {
            Some(MovType::AccumulatorToMemory)
        } else if 0x88 <= byte <= 0x8B {
            Some(MovType::RegisterMemoryToFromRegister)
        } else if 0xB0 <= byte <= 0xBF {
            Some(MovType::ImmediateToRegister)
        } else {
            None
        }
    }

    /// Which bytes each row of the table matches.
    pub proof fn lemma_rows_match_ranges(byte: u8)
        ensures
            OpCode::table().len() == 7,
            OpCode::table()[0].matches(byte) <==> byte == 0x8E,
            OpCode::table()[1].matches(byte) <==> byte == 0x8C,
            OpCode::table()[2].matches(byte) <==> 0xC6 <= byte <= 0xC7,
            OpCode::table()[3].matches(byte) <==> 0xA0 <= byte <= 0xA1,
            OpCode::table()[4].matches(byte) <==> 0xA2 <= byte <= 0xA3,
            OpCode::table()[5].matches(byte) <==> 0x88 <= byte <= 0x8B,
            OpCode::table()[6].matches(byte) <==> 0xB0 <= byte <= 0xBF,
    {
        assert(byte >> 0u8 == byte) by (bit_vector);
        assert(byte >> 1u8 == 0b1100011 <==> 0xC6 <= byte <= 0xC7) by (bit_vector);
        assert(byte >> 1u8 == 0b1010000 <==> 0xA0 <= byte <= 0xA1) by (bit_vector);
        assert(byte >> 1u8 == 0b1010001 <==> 0xA2 <= byte <= 0xA3) by (bit_vector);
        assert(byte >> 2u8 == 0b100010 <==> 0x88 <= byte <= 0x8B) by (bit_vector);
        assert(byte >> 4u8 == 0b1011 <==> 0xB0 <= byte <= 0xBF) by (bit_vector);
    }

    /// No byte matches two rows of the table, so the order of the rows
    /// decides nothing.
    pub proof fn lemma_rows_are_disjoint(byte: u8, i: int, j: int)
        requires
            0 <= i < OpCode::table().len(),
            0 <= j < OpCode::table().len(),
            OpCode::table()[i].matches(byte),
            OpCode::table()[j].matches(byte),
        ensures
            i == j,
    {
        OpCode::lemma_rows_match_ranges(byte);
    }

    /// The encoding that an opcode byte selects, by the byte's value.
    pub proof fn lemma_of_byte(byte: u8)
        ensures
            OpCode::of_byte(byte) == OpCode::of_byte_ranges(byte),
    {
        OpCode::lemma_rows_match_ranges(byte);
        reveal_with_fuel(OpCode::first_match, 8);
    }

    /// Classifies an opcode byte; a byte that matches no row is
    /// unsupported.
    pub fn read_op_code(byte: u8) -> (op: Result<OpCode, DecodeError>)
        ensures
            op == OpCode::classified(byte),
            op is Ok <==> OpCode::of_byte_ranges(byte) is Some,
            op matches Ok(OpCode::MOV(kind)) ==> OpCode::of_byte_ranges(byte) == Some(kind),
            op matches Err(error) ==> error == DecodeError::Unsupported(byte),
    {
        proof {
            OpCode::lemma_of_byte(byte);
        }
        let table: [Pattern; 7] = [
            Pattern {
                width: 8,
                pattern: 0b10001110,
                kind: MovType::RegisterMemoryToSegmentRegister,
            },
            Pattern {
                width: 8,
                pattern: 0b10001100,
                kind: MovType::SegmentRegisterToRegisterMemory,
            },
            Pattern { width: 7, pattern: 0b1100011, kind: MovType::ImmediateToRegisterMemory },
            Pattern { width: 7, pattern: 0b1010000, kind: MovType::MemoryToAccumulator },
            Pattern { width: 7, pattern: 0b1010001, kind: MovType::AccumulatorToMemory },
            Pattern { width: 6, pattern: 0b100010, kind: MovType::RegisterMemoryToFromRegister },
            Pattern { width: 4, pattern: 0b1011, kind: MovType::ImmediateToRegister },
        ];
        let mut row: usize = 0;
        while row < 7
            invariant
                row <= 7,
                table@ == OpCode::table(),
                OpCode::of_byte(byte) == OpCode::first_match(byte, row as int),
                OpCode::of_byte(byte) == OpCode::of_byte_ranges(byte),
            decreases 7 - row,
        {
            let entry = table[row];
            if byte >> (8 - entry.width) == entry.pattern {
                return Ok(OpCode::MOV(entry.kind));
            }
            row += 1;
        }
        Err(DecodeError::Unsupported(byte))
    }
}

} // verus!
