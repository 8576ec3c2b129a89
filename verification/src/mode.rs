//! Addressing modes of the register-or-memory operand.

use vstd::prelude::*;
use vstd::string::*;

use crate::bits::{signed_byte, signed_word, word_value};
use crate::register::Register;

verus! {

/// How the r/m field of a mod-reg-r/m byte is to be read.
#[derive(Debug, Clone, Copy, PartialEq, Eq, Structural)]
pub enum Mode {
    /// Memory, addressed through base and index registers alone.
    Mem,
    /// The r/m field names a register.
    Reg,
    /// Memory, with a signed 8-bit displacement.
    Mem8,
    /// Memory, with a signed 16-bit displacement.
    Mem16,
    /// Memory at an absolute 16-bit address, with no base or index.
    DirectAddress,
}

impl Mode {
    /// The mode that two raw mode bits select.
    pub open spec fn of_bits(bits: u8) -> Mode {
        if bits == 0b00 {
            Mode::Mem
        } else if bits == 0b01 {
            Mode::Mem8
        } else if bits == 0b10 {
            Mode::Mem16
        } else {
            Mode::Reg
        }
    }

    /// The mode after the direct-address rule: memory without displacement
    /// whose r/m code is `110`, which would otherwise select the base
    /// pointer alone, is an absolute address instead.
    pub open spec fn refined(self, rm: Register) -> Mode {
        if self == Mode::Mem && rm.code() == 0b110 {
            Mode::DirectAddress
        } else {
            self
        }
    }

    /// The mode of an operand, from its mode bits and its r/m code.
    pub open spec fn resolved(bits: u8, rm: Register) -> Mode {
        Mode::of_bits(bits).refined(rm)
    }

    /// The two mode bits that select this mode; an absolute address has
    /// those of memory without displacement.
    pub open spec fn bits(self) -> u8 {
        match self {
            Mode::Mem | Mode::DirectAddress => 0b00,
            Mode::Mem8 => 0b01,
            Mode::Mem16 => 0b10,
            Mode::Reg => 0b11,
        }
    }

    /// How many displacement or address bytes follow the mod-reg-r/m byte.
    pub open spec fn displacement_len(self) -> nat {
        match self {
            Mode::Mem | Mode::Reg => 0,
            Mode::Mem8 => 1,
            Mode::Mem16 | Mode::DirectAddress => 2,
        }
    }

    /// Whether `disp_lo` and `disp_hi` hold exactly the bytes that this
    /// mode carries.
    pub open spec fn carries(self, disp_lo: Option<u8>, disp_hi: Option<u8>) -> bool {
        &&& disp_lo is Some <==> self.displacement_len() >= 1
        &&& disp_hi is Some <==> self.displacement_len() == 2
    }

    /// The signed displacement that the bytes stand for: the sign-extended
    /// byte in `Mem8`, the 16-bit two's-complement number in `Mem16`, and
    /// zero in the modes without a displacement.
    pub open spec fn displacement(self, disp_lo: Option<u8>, disp_hi: Option<u8>) -> int {
        match self {
            Mode::Mem8 => signed_byte(disp_lo->0),
            Mode::Mem16 => signed_word(word_value(disp_lo->0, disp_hi->0) as u16),
            _ => 0,
        }
    }

    /// The base and index registers that each r/m code selects in the memory
    /// modes, whatever the operand width.
    pub open spec fn base_index(rm: Register) -> Seq<char> {
        let code = rm.code();
        if code == 0b000 {
            "bx + si"@
        } else if code == 0b001 {
            "bx + di"@
        } else if code == 0b010 {
            "bp + si"@
        } else if code == 0b011 {
            "bp + di"@
        } else if code == 0b100 {
            "si"@
        } else if code == 0b101 {
            "di"@
        } else if code == 0b110 {
            "bp"@
        } else {
            "bx"@
        }
    }

    /// The bracketed address expression of a memory operand without
    /// displacement.
    pub open spec fn effective_address(rm: Register) -> Seq<char> {
        "["@ + Mode::base_index(rm) + "]"@
    }

    /// Decodes two raw mode bits.
    pub fn decode(bits: u8) -> (mode: Self)
        requires
            bits < 4,
        ensures
            mode == Mode::of_bits(bits),
            mode != Mode::DirectAddress,
    {
        if bits == 0b00 {
            Mode::Mem
        } else if bits == 0b01 {
            Mode::Mem8
        } else if bits == 0b10 {
            Mode::Mem16
        } else {
            Mode::Reg
        }
    }

    /// Decodes two raw mode bits; another name for [`Mode::decode`].
    pub fn from(value: u8) -> (mode: Self)
        requires
            value < 4,
        ensures
            mode == Mode::of_bits(value),
            mode != Mode::DirectAddress,
    {
        Mode::decode(value)
    }

    /// Applies the direct-address rule to a decoded mode.
    pub fn refine(self, rm: Register) -> (mode: Self)
        ensures
            mode == self.refined(rm),
    {
        match self {
            Mode::Mem => {
                if rm == Register::DH || rm == Register::SI {
                    Mode::DirectAddress
                } else {
                    Mode::Mem
                }
            },
            other => other,
        }
    }

    /// The number of displacement or address bytes of this mode.
    pub fn displacement_bytes(self) -> (len: usize)
        ensures
            len == self.displacement_len(),
    {
        match self {
            Mode::Mem | Mode::Reg => 0,
            Mode::Mem8 => 1,
            Mode::Mem16 | Mode::DirectAddress => 2,
        }
    }

    /// Renders the base and index registers that `rm` selects.
    pub fn base_index_to_string(rm: &Register) -> (text: String)
        ensures
            text@ == Mode::base_index(*rm),
    {
        let term = match rm {
            Register::AL | Register::AX => "bx + si",
            Register::CL | Register::CX => "bx + di",
            Register::DL | Register::DX => "bp + si",
            Register::BL | Register::BX => "bp + di",
            Register::AH | Register::SP => "si",
            Register::CH | Register::BP => "di",
            Register::DH | Register::SI => "bp",
            Register::BH | Register::DI => "bx",
        };
        term.to_owned()
    }

    /// Renders the address expression of a memory operand without
    /// displacement, such as `[bx + si]`.
    pub fn get_effective_address(rm: &Register) -> (text: String)
        ensures
            text@ == Mode::effective_address(*rm),
    {
        let mut text = "[".to_owned();
        let term = Mode::base_index_to_string(rm);
        text.append(term.as_str());
        text.append("]");
        text
    }
}

} // verus!
