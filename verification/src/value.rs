//! Immediate operands.

use vstd::prelude::*;

use crate::bits::{sign_extend_byte, sign_extend_word, signed_byte, signed_word, word, word_value};
use crate::text::{decimal, lemma_decimal_of_minus_one, to_decimal};

verus! {

/// An immediate operand as it stands in the instruction: one byte, or a
/// 16-bit number, by the instruction's width flag.
#[derive(Debug, Clone, Copy, PartialEq, Eq, Structural)]
pub enum Value {
    Short(u8),
    Wide(u16),
}

impl Value {
    /// Whether the immediate is a 16-bit number.
    pub open spec fn is_wide(self) -> bool {
        self is Wide
    }

    /// The number of bytes that the immediate takes in the instruction.
    pub open spec fn len(self) -> nat {
        match self {
            Value::Short(_) => 1,
            Value::Wide(_) => 2,
        }
    }

    /// The number that the immediate stands for: an 8-bit immediate is
    /// sign-extended, and every immediate is read as a two's-complement
    /// 16-bit number.
    pub open spec fn signed(self) -> int {
        match self {
            Value::Short(b) => signed_byte(b),
            Value::Wide(x) => signed_word(x),
        }
    }

    /// The immediate in decimal.
    pub open spec fn text(self) -> Seq<char> {
        decimal(self.signed())
    }

    /// The immediate that begins `bytes`: its first byte, or its first two
    /// bytes, low byte first, when `w` is set.
    pub open spec fn read(w: bool, bytes: Seq<u8>) -> Value {
        if w {
            Value::Wide(word_value(bytes[0], bytes[1]) as u16)
        } else {
            Value::Short(bytes[0])
        }
    }

    /// An 8-bit immediate of all ones stands for minus one, and so does a
    /// 16-bit immediate of all ones; both are rendered as `-1`.
    pub proof fn lemma_all_ones_is_minus_one()
        ensures
            Value::Short(0xFF).signed() == -1,
            Value::Short(0xFF).text() == "-1"@,
            Value::Wide(0xFFFF).signed() == -1,
            Value::Wide(0xFFFF).text() == "-1"@,
    {
        lemma_decimal_of_minus_one();
    }

    /// An 8-bit immediate stands for a number from -128 to 127: the byte
    /// itself below 128, the byte less 256 from 128 on. That is the number
    /// of the 16-bit immediate whose high byte repeats the top bit of the
    /// byte.
    pub proof fn lemma_short_is_sign_extended(b: u8)
        ensures
            -128 <= Value::Short(b).signed() <= 127,
            b < 128 ==> Value::Short(b).signed() == b,
            b >= 128 ==> Value::Short(b).signed() == b - 256,
            Value::Short(b).signed() == Value::Wide(
                if b < 128 {
                    b as u16
                } else {
                    (0xFF00 + b) as u16
                },
            ).signed(),
    {
    }

    /// Reads the immediate that begins `bytes`.
    pub fn from(w: bool, bytes: &[u8]) -> (value: Self)
        requires
            bytes@.len() >= (if w {
                2nat
            } else {
                1nat
            }),
        ensures
            value == Value::read(w, bytes@),
            value.is_wide() == w,
    {
        if w {
            Self::Wide(word(bytes[0], bytes[1]))
        } else {
            Self::Short(bytes[0])
        }
    }

    /// The sign-extended number that the immediate stands for.
    pub fn to_i16(&self) -> (v: i16)
        ensures
            v == self.signed(),
    {
        match self {
            Value::Short(b) => sign_extend_byte(*b),
            Value::Wide(x) => sign_extend_word(*x),
        }
    }

    /// Renders the immediate in decimal.
    pub fn to_string(&self) -> (text: String)
        ensures
            text@ == self.text(),
    {
        to_decimal(self.to_i16() as i32)
    }
}

} // verus!
