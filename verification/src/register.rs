//! The sixteen general-purpose register names, and the text of an operand
//! that a register code selects.

use vstd::prelude::*;
use vstd::string::*;

use crate::bits::{sign_extend_byte, sign_extend_word, word, word_value};
use crate::mode::Mode;
use crate::text::{decimal, lemma_digits_are_digits, push_decimal};

verus! {

/// A general-purpose register of the 8086: eight byte-wide names and eight
/// word-wide names.
#[derive(Debug, Clone, Copy, PartialEq, Eq, Structural)]
pub enum Register {
    AL,
    CL,
    DL,
    BL,
    AH,
    CH,
    DH,
    BH,
    AX,
    CX,
    DX,
    BX,
    SP,
    BP,
    SI,
    DI,
}

impl Register {
    /// The register that a 3-bit code names at the given width.
    pub open spec fn of_code(bits: u8, w: bool) -> Register {
        if bits == 0b000 {
            if w {
                Register::AX
            } else {
                Register::AL
            }
        } else if bits == 0b001 {
            if w {
                Register::CX
            } else {
                Register::CL
            }
        } else if bits == 0b010 {
            if w {
                Register::DX
            } else {
                Register::DL
            }
        } else if bits == 0b011 {
            if w {
                Register::BX
            } else {
                Register::BL
            }
        } else if bits == 0b100 {
            if w {
                Register::SP
            } else {
                Register::AH
            }
        } else if bits == 0b101 {
            if w {
                Register::BP
            } else {
                Register::CH
            }
        } else if bits == 0b110 {
            if w {
                Register::SI
            } else {
                Register::DH
            }
        } else {
            if w {
                Register::DI
            } else {
                Register::BH
            }
        }
    }

    /// The 3-bit code of this register.
    pub open spec fn code(self) -> u8 {
        match self {
            Register::AL | Register::AX => 0b000,
            Register::CL | Register::CX => 0b001,
            Register::DL | Register::DX => 0b010,
            Register::BL | Register::BX => 0b011,
            Register::AH | Register::SP => 0b100,
            Register::CH | Register::BP => 0b101,
            Register::DH | Register::SI => 0b110,
            Register::BH | Register::DI => 0b111,
        }
    }

    /// Whether this is one of the eight word-wide registers.
    pub open spec fn is_wide(self) -> bool {
        match self {
            Register::AX
            | Register::CX
            | Register::DX
            | Register::BX
            | Register::SP
            | Register::BP
            | Register::SI
            | Register::DI => true,
            _ => false,
        }
    }

    /// The two-letter mnemonic of this register.
    pub open spec fn name(self) -> Seq<char> {
        match self {
            Register::AL => "al"@,
            Register::CL => "cl"@,
            Register::DL => "dl"@,
            Register::BL => "bl"@,
            Register::AH => "ah"@,
            Register::CH => "ch"@,
            Register::DH => "dh"@,
            Register::BH => "bh"@,
            Register::AX => "ax"@,
            Register::CX => "cx"@,
            Register::DX => "dx"@,
            Register::BX => "bx"@,
            Register::SP => "sp"@,
            Register::BP => "bp"@,
            Register::SI => "si"@,
            Register::DI => "di"@,
        }
    }

    /// What follows the base and index registers inside the brackets of a
    /// memory operand: nothing for a zero displacement, else the sign as
    /// ` + ` or ` - ` and the magnitude in decimal.
    pub open spec fn displacement_suffix(d: int) -> Seq<char> {
        if d == 0 {
            Seq::empty()
        } else if d > 0 {
            " + "@ + decimal(d)
        } else {
            " - "@ + decimal(-d)
        }
    }

    /// The text of the operand that the r/m field selects, where `self` is
    /// the register of that field's code: the register name in register
    /// mode, the bracketed absolute address in direct-address mode, and
    /// otherwise brackets around the base and index registers and the
    /// displacement.
    pub open spec fn operand_text(
        self,
        mode: Mode,
        disp_lo: Option<u8>,
        disp_hi: Option<u8>,
    ) -> Seq<char> {
        match mode {
            Mode::Reg => self.name(),
            Mode::DirectAddress => "["@ + decimal(word_value(disp_lo->0, disp_hi->0)) + "]"@,
            _ => "["@ + Mode::base_index(self) + Register::displacement_suffix(
                mode.displacement(disp_lo, disp_hi),
            ) + "]"@,
        }
    }

    /// A register is the one that its own code and width name.
    pub proof fn lemma_code_names_register(self)
        ensures
            Register::of_code(self.code(), self.is_wide()) == self,
            self.code() < 8,
    {
    }

    /// Decoding a 3-bit code yields the register of that code and width.
    pub proof fn lemma_register_keeps_code(bits: u8, w: bool)
        requires
            bits < 8,
        ensures
            Register::of_code(bits, w).code() == bits,
            Register::of_code(bits, w).is_wide() == w,
    {
    }

    /// An 8-bit displacement of all ones stands for minus one and is
    /// rendered as ` - 1` behind the base and index registers.
    pub proof fn lemma_byte_displacement_all_ones(self)
        ensures
            Mode::Mem8.displacement(Some(0xFFu8), None) == -1,
            Register::displacement_suffix(-1) == " - 1"@,
            self.operand_text(Mode::Mem8, Some(0xFFu8), None) == "["@ + Mode::base_index(self)
                + " - 1"@ + "]"@,
    {
        reveal_strlit(" - ");
        reveal_strlit(" - 1");
    }

    /// The operand in direct-address mode is the absolute address in
    /// brackets, with no base or index register in it; in particular it is
    /// never `[bp]`.
    pub proof fn lemma_direct_address_text(self, addr_lo: u8, addr_hi: u8)
        ensures
            self.operand_text(Mode::DirectAddress, Some(addr_lo), Some(addr_hi)) == "["@ + decimal(
                word_value(addr_lo, addr_hi),
            ) + "]"@,
            self.operand_text(Mode::DirectAddress, Some(addr_lo), Some(addr_hi)) != "[bp]"@,
    {
        lemma_digits_are_digits(word_value(addr_lo, addr_hi) as nat);
        reveal_strlit("[");
        reveal_strlit("[bp]");
        assert("[bp]"@[1] == 'b');
    }

    /// Decodes a 3-bit register code at the given width.
    pub fn decode_reg(bits: u8, w: bool) -> (reg: Self)
        requires
            bits < 8,
        ensures
            reg == Register::of_code(bits, w),
            reg.code() == bits,
            reg.is_wide() == w,
    {
        match bits {
            0b000 => {
                if w {
                    Self::AX
                } else {
                    Self::AL
                }
            },
            0b001 => {
                if w {
                    Self::CX
                } else {
                    Self::CL
                }
            },
            0b010 => {
                if w {
                    Self::DX
                } else {
                    Self::DL
                }
            },
            0b011 => {
                if w {
                    Self::BX
                } else {
                    Self::BL
                }
            },
            0b100 => {
                if w {
                    Self::SP
                } else {
                    Self::AH
                }
            },
            0b101 => {
                if w {
                    Self::BP
                } else {
                    Self::CH
                }
            },
            0b110 => {
                if w {
                    Self::SI
                } else {
                    Self::DH
                }
            },
            _ => {
                if w {
                    Self::DI
                } else {
                    Self::BH
                }
            },
        }
    }

    /// Decodes a 3-bit register code at the given width; another name for
    /// [`Register::decode_reg`].
    pub fn new(byte: u8, w: bool) -> (reg: Self)
        requires
            byte < 8,
        ensures
            reg == Register::of_code(byte, w),
            reg.code() == byte,
            reg.is_wide() == w,
    {
        Register::decode_reg(byte, w)
    }

    /// Renders the mnemonic of this register.
    pub fn register_mode_to_string(&self) -> (text: String)
        ensures
            text@ == self.name(),
    {
        match self {
            Register::AL => "al".to_owned(),
            Register::CL => "cl".to_owned(),
            Register::DL => "dl".to_owned(),
            Register::BL => "bl".to_owned(),
            Register::AH => "ah".to_owned(),
            Register::CH => "ch".to_owned(),
            Register::DH => "dh".to_owned(),
            Register::BH => "bh".to_owned(),
            Register::AX => "ax".to_owned(),
            Register::CX => "cx".to_owned(),
            Register::DX => "dx".to_owned(),
            Register::BX => "bx".to_owned(),
            Register::SP => "sp".to_owned(),
            Register::BP => "bp".to_owned(),
            Register::SI => "si".to_owned(),
            Register::DI => "di".to_owned(),
        }
    }

    /// Renders the mnemonic of this register; another name for
    /// [`Register::register_mode_to_string`].
    pub fn to_str(&self) -> (text: String)
        ensures
            text@ == self.name(),
    {
        self.register_mode_to_string()
    }

    /// Renders the operand that the r/m field selects in the given mode,
    /// where `self` is the register of that field's code.
    pub fn memory_mode_to_string(
        &self,
        mode: Mode,
        disp_lo: Option<u8>,
        disp_hi: Option<u8>,
    ) -> (text: String)
        requires
            mode.carries(disp_lo, disp_hi),
        ensures
            text@ == self.operand_text(mode, disp_lo, disp_hi),
    {
        match mode {
            Mode::Reg => self.register_mode_to_string(),
            Mode::DirectAddress => {
                let address = word(disp_lo.unwrap(), disp_hi.unwrap());
                let mut text = "[".to_owned();
                push_decimal(&mut text, address as i32);
                text.append("]");
                text
            },
            Mode::Mem => Mode::get_effective_address(self),
            Mode::Mem8 => {
                let d = sign_extend_byte(disp_lo.unwrap());
                self.displaced_to_string(d)
            },
            Mode::Mem16 => {
                let d = sign_extend_word(word(disp_lo.unwrap(), disp_hi.unwrap()));
                self.displaced_to_string(d)
            },
        }
    }

    /// Renders a memory operand with the signed displacement `d`.
    fn displaced_to_string(&self, d: i16) -> (text: String)
        ensures
            text@ == "["@ + Mode::base_index(*self) + Register::displacement_suffix(d as int)
                + "]"@,
    {
        let mut text = "[".to_owned();
        let term = Mode::base_index_to_string(self);
        text.append(term.as_str());
        if d > 0 {
            text.append(" + ");
            push_decimal(&mut text, d as i32);
        } else if d < 0 {
            text.append(" - ");
            push_decimal(&mut text, -(d as i32));
        }
        text.append("]");
        assert(text@ =~= "["@ + Mode::base_index(*self) + Register::displacement_suffix(d as int)
            + "]"@);
        text
    }
}

} // verus!
