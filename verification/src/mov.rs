//! The encodings of MOV: one type for each, with its decoder, the number
//! of bytes it takes, and its line of assembly text.

use vstd::prelude::*;
use vstd::slice::slice_subrange;
use vstd::string::*;

use crate::bits::{
    has_bits, mode_bits, mode_field, reg_bits, reg_field, rm_bits, rm_field, test_bits, word,
    word_value,
};
use crate::error::DecodeError;
use crate::mode::Mode;
use crate::register::Register;
use crate::text::{decimal, push_decimal};
use crate::value::Value;

verus! {

/// One line of a listing: the mnemonic, the destination, the source, and a
/// CRLF line ending.
pub open spec fn line(dst: Seq<char>, src: Seq<char>) -> Seq<char> {
    "mov "@ + dst + ", "@ + src + "\r\n"@
}

/// The error for a buffer that yields no instruction.
pub open spec fn failure(bytes: Seq<u8>) -> DecodeError {
    if bytes.len() == 0 {
        DecodeError::Empty
    } else {
        DecodeError::Unsupported(bytes[0])
    }
}

/// The accumulator of the given width.
pub open spec fn accumulator(w: bool) -> Register {
    if w {
        Register::AX
    } else {
        Register::AL
    }
}

/// The register that the r/m field of the mod-reg-r/m byte names.
pub open spec fn rm_register(modrm: u8, w: bool) -> Register {
    Register::of_code(rm_field(modrm), w)
}

/// The addressing mode that the mod-reg-r/m byte selects, the
/// direct-address rule applied.
pub open spec fn operand_mode(modrm: u8, w: bool) -> Mode {
    Mode::resolved(mode_field(modrm), rm_register(modrm, w))
}

/// The first displacement byte of an instruction with a mod-reg-r/m byte,
/// where its mode has one.
pub open spec fn low_displacement(mode: Mode, bytes: Seq<u8>) -> Option<u8> {
    if mode.displacement_len() >= 1 {
        Some(bytes[2])
    } else {
        None
    }
}

/// The second displacement byte of an instruction with a mod-reg-r/m byte,
/// where its mode has one.
pub open spec fn high_displacement(mode: Mode, bytes: Seq<u8>) -> Option<u8> {
    if mode.displacement_len() == 2 {
        Some(bytes[3])
    } else {
        None
    }
}

/// The text of an absolute address operand.
pub open spec fn address_text(addr_lo: u8, addr_hi: u8) -> Seq<char> {
    "["@ + decimal(word_value(addr_lo, addr_hi)) + "]"@
}

/// The direct-address rule: a mod-reg-r/m byte selects an absolute address
/// exactly when its mode bits are `00` and its r/m code is `110`; every
/// other byte selects the mode of its mode bits.
pub proof fn lemma_direct_address_rule(modrm: u8, w: bool)
    ensures
        operand_mode(modrm, w) == Mode::DirectAddress <==> mode_field(modrm) == 0b00 && rm_field(
            modrm,
        ) == 0b110,
        operand_mode(modrm, w) != Mode::DirectAddress ==> operand_mode(modrm, w) == Mode::of_bits(
            mode_field(modrm),
        ),
        operand_mode(modrm, w) == Mode::Mem ==> rm_field(modrm) != 0b110,
{
}

/// Builds the error for a buffer that yields no instruction.
fn fail(bytes: &[u8]) -> (error: DecodeError)
    ensures
        error == failure(bytes@),
{
    if bytes.len() == 0 {
        DecodeError::Empty
    } else {
        DecodeError::Unsupported(bytes[0])
    }
}

/// Renders one line of a listing.
pub fn render_line(dst: &String, src: &String) -> (text: String)
    ensures
        text@ == line(dst@, src@),
{
    let mut text = "mov ".to_owned();
    text.append(dst.as_str());
    text.append(", ");
    text.append(src.as_str());
    text.append("\r\n");
    text
}

/// Renders an absolute address operand.
fn render_address(addr_lo: u8, addr_hi: u8) -> (text: String)
    ensures
        text@ == address_text(addr_lo, addr_hi),
{
    let mut text = "[".to_owned();
    push_decimal(&mut text, word(addr_lo, addr_hi) as i32);
    text.append("]");
    text
}

/// Decodes the register and the mode of the r/m field.
fn decode_rm(modrm: u8, w: bool) -> (operand: (Register, Mode))
    ensures
        operand.0 == rm_register(modrm, w),
        operand.1 == operand_mode(modrm, w),
        operand.0.is_wide() == w,
        operand.1 == operand.1.refined(operand.0),
        operand.1 == Mode::DirectAddress ==> operand.0.code() == 0b110,
{
    let rm = Register::decode_reg(rm_bits(modrm), w);
    let mode = Mode::decode(mode_bits(modrm)).refine(rm);
    (rm, mode)
}

/// Reads the displacement bytes that follow a mod-reg-r/m byte.
fn read_displacement(bytes: &[u8], mode: Mode) -> (disp: (Option<u8>, Option<u8>))
    requires
        bytes@.len() >= 2 + mode.displacement_len(),
    ensures
        disp.0 == low_displacement(mode, bytes@),
        disp.1 == high_displacement(mode, bytes@),
        mode.carries(disp.0, disp.1),
{
    match mode {
        Mode::Reg | Mode::Mem => (None, None),
        Mode::Mem8 => (Some(bytes[2]), None),
        Mode::Mem16 | Mode::DirectAddress => (Some(bytes[2]), Some(bytes[3])),
    }
}

/// A move between a register and a register-or-memory operand:
/// `100010 d w`, `mod reg r/m`, then the displacement of the mode.
#[derive(Debug, Clone, Copy, PartialEq, Eq)]
pub struct RegisterMemoryToFromRegister {
    /// Set when `reg` is the destination.
    pub d: bool,
    /// Set for 16-bit operands.
    pub w: bool,
    pub mode: Mode,
    pub reg: Register,
    /// The register of the r/m code; in the memory modes only its code
    /// matters.
    pub rm: Register,
    pub disp_lo: Option<u8>,
    pub disp_hi: Option<u8>,
}

impl RegisterMemoryToFromRegister {
    /// The fields agree with one another as they do in every decoded
    /// instruction.
    pub open spec fn wf(self) -> bool {
        &&& self.reg.is_wide() == self.w
        &&& self.rm.is_wide() == self.w
        &&& self.mode == self.mode.refined(self.rm)
        &&& self.mode == Mode::DirectAddress ==> self.rm.code() == 0b110
        &&& self.mode.carries(self.disp_lo, self.disp_hi)
    }

    /// The number of bytes of the encoding.
    pub open spec fn size(self) -> nat {
        2 + self.mode.displacement_len()
    }

    /// The line of assembly text.
    pub open spec fn text(self) -> Seq<char> {
        let rm = self.rm.operand_text(self.mode, self.disp_lo, self.disp_hi);
        if self.d {
            line(self.reg.name(), rm)
        } else {
            line(rm, self.reg.name())
        }
    }

    /// What decoding yields: the fields of the two leading bytes and the
    /// displacement, or the failure of a buffer that ends too soon.
    pub open spec fn spec_decode(bytes: Seq<u8>) -> Result<Self, DecodeError> {
        if bytes.len() < 2 {
            Err(failure(bytes))
        } else {
            let w = has_bits(bytes[0], 0b01);
            let mode = operand_mode(bytes[1], w);
            if bytes.len() < 2 + mode.displacement_len() {
                Err(failure(bytes))
            } else {
                Ok(
                    RegisterMemoryToFromRegister {
                        d: has_bits(bytes[0], 0b10),
                        w,
                        mode,
                        reg: Register::of_code(reg_field(bytes[1]), w),
                        rm: rm_register(bytes[1], w),
                        disp_lo: low_displacement(mode, bytes),
                        disp_hi: high_displacement(mode, bytes),
                    },
                )
            }
        }
    }

    /// With mode bits `00` and r/m code `110` the instruction takes four
    /// bytes, the last two an absolute address, and its memory operand is
    /// that address in brackets, never `[bp]`.
    pub proof fn lemma_direct_address(bytes: Seq<u8>)
        requires
            bytes.len() >= 2,
            mode_field(bytes[1]) == 0b00,
            rm_field(bytes[1]) == 0b110,
        ensures
            Self::spec_decode(bytes) is Ok <==> bytes.len() >= 4,
            Self::spec_decode(bytes) matches Ok(ins) ==> {
                let operand = ins.rm.operand_text(ins.mode, ins.disp_lo, ins.disp_hi);
                &&& ins.mode == Mode::DirectAddress
                &&& ins.size() == 4
                &&& operand == address_text(bytes[2], bytes[3])
                &&& operand != "[bp]"@
                &&& ins.text() == if ins.d {
                    line(ins.reg.name(), operand)
                } else {
                    line(operand, ins.reg.name())
                }
            },
    {
        let w = has_bits(bytes[0], 0b01);
        rm_register(bytes[1], w).lemma_direct_address_text(bytes[2], bytes[3]);
    }

    /// An 8-bit displacement of all ones is the displacement minus one,
    /// rendered as ` - 1` behind the base and index registers.
    pub proof fn lemma_byte_displacement_all_ones(bytes: Seq<u8>)
        requires
            bytes.len() >= 3,
            mode_field(bytes[1]) == 0b01,
            bytes[2] == 0xFF,
        ensures
            Self::spec_decode(bytes) matches Ok(ins) && {
                let operand = "["@ + Mode::base_index(ins.rm) + " - 1"@ + "]"@;
                &&& ins.mode == Mode::Mem8
                &&& ins.mode.displacement(ins.disp_lo, ins.disp_hi) == -1
                &&& ins.text() == if ins.d {
                    line(ins.reg.name(), operand)
                } else {
                    line(operand, ins.reg.name())
                }
            },
    {
        let w = has_bits(bytes[0], 0b01);
        rm_register(bytes[1], w).lemma_byte_displacement_all_ones();
    }

    /// Decodes the instruction at the start of `bytes`, without looking at
    /// the six opcode bits.
    pub fn decode(bytes: &[u8]) -> (decoded: Result<Self, DecodeError>)
        ensures
            decoded == Self::spec_decode(bytes@),
            decoded matches Ok(ins) ==> ins.wf() && ins.size() <= bytes@.len(),
            decoded matches Err(error) ==> error == failure(bytes@),
    {
        if bytes.len() < 2 {
            return Err(fail(bytes));
        }
        let d = test_bits(bytes[0], 0b10);
        let w = test_bits(bytes[0], 0b01);
        let (rm, mode) = decode_rm(bytes[1], w);
        if bytes.len() < 2 + mode.displacement_bytes() {
            return Err(fail(bytes));
        }
        let reg = Register::decode_reg(reg_bits(bytes[1]), w);
        let (disp_lo, disp_hi) = read_displacement(bytes, mode);
        Ok(Self { d, w, mode, reg, rm, disp_lo, disp_hi })
    }

    /// The number of bytes that the instruction takes.
    pub fn offset(&self) -> (len: usize)
        ensures
            len == self.size(),
    {
        2 + self.mode.displacement_bytes()
    }

    /// Renders the instruction as one line of assembly text.
    pub fn to_string(&self) -> (text: String)
        requires
            self.wf(),
        ensures
            text@ == self.text(),
    {
        let rm = self.rm.memory_mode_to_string(self.mode, self.disp_lo, self.disp_hi);
        let reg = self.reg.register_mode_to_string();
        if self.d {
            render_line(&reg, &rm)
        } else {
            render_line(&rm, &reg)
        }
    }
}

/// A move of an immediate into a register: `1011 w reg`, then the
/// immediate.
#[derive(Debug, Clone, Copy, PartialEq, Eq)]
pub struct ImmediateToRegister {
    /// Set for a 16-bit register and immediate.
    pub w: bool,
    pub reg: Register,
    pub data: Value,
}

impl ImmediateToRegister {
    /// The register and the immediate have the width of the flag.
    pub open spec fn wf(self) -> bool {
        &&& self.reg.is_wide() == self.w
        &&& self.data.is_wide() == self.w
    }

    /// The number of bytes of the encoding.
    pub open spec fn size(self) -> nat {
        1 + self.data.len()
    }

    /// The line of assembly text.
    pub open spec fn text(self) -> Seq<char> {
        line(self.reg.name(), self.data.text())
    }

    /// What decoding yields: the register of the opcode byte and the
    /// immediate behind it, or the failure of a buffer that ends too soon.
    pub open spec fn spec_decode(bytes: Seq<u8>) -> Result<Self, DecodeError> {
        if bytes.len() < 2 {
            Err(failure(bytes))
        } else {
            let w = has_bits(bytes[0], 0b1000);
            if w && bytes.len() < 3 {
                Err(failure(bytes))
            } else {
                Ok(
                    ImmediateToRegister {
                        w,
                        reg: Register::of_code(rm_field(bytes[0]), w),
                        data: Value::read(w, bytes.skip(1)),
                    },
                )
            }
        }
    }

    /// An 8-bit immediate of all ones is the immediate minus one, rendered
    /// as `-1`.
    pub proof fn lemma_byte_immediate_all_ones(bytes: Seq<u8>)
        requires
            bytes.len() >= 2,
            !has_bits(bytes[0], 0b1000),
            bytes[1] == 0xFF,
        ensures
            Self::spec_decode(bytes) matches Ok(ins) && {
                &&& ins.data == Value::Short(0xFF)
                &&& ins.data.signed() == -1
                &&& ins.text() == line(ins.reg.name(), "-1"@)
            },
    {
        Value::lemma_all_ones_is_minus_one();
    }

    /// Decodes the instruction at the start of `bytes`, without looking at
    /// the four opcode bits.
    pub fn decode(bytes: &[u8]) -> (decoded: Result<Self, DecodeError>)
        ensures
            decoded == Self::spec_decode(bytes@),
            decoded matches Ok(ins) ==> ins.wf() && ins.size() <= bytes@.len(),
            decoded matches Err(error) ==> error == failure(bytes@),
    {
        if bytes.len() < 2 {
            return Err(fail(bytes));
        }
        let w = test_bits(bytes[0], 0b1000);
        if w && bytes.len() < 3 {
            return Err(fail(bytes));
        }
        let reg = Register::decode_reg(rm_bits(bytes[0]), w);
        let data = Value::from(w, slice_subrange(bytes, 1, bytes.len()));
        Ok(Self { w, reg, data })
    }

    /// The number of bytes that the instruction takes.
    pub fn offset(&self) -> (len: usize)
        ensures
            len == self.size(),
    {
        match self.data {
            Value::Short(_) => 2,
            Value::Wide(_) => 3,
        }
    }

    /// Renders the instruction as one line of assembly text.
    pub fn to_string(&self) -> (text: String)
        ensures
            text@ == self.text(),
    {
        let dst = self.reg.register_mode_to_string();
        let src = self.data.to_string();
        render_line(&dst, &src)
    }
}

/// A move of an immediate into a register-or-memory operand: `1100011 w`,
/// `mod 000 r/m`, the displacement of the mode, then the immediate.
#[derive(Debug, Clone, Copy, PartialEq, Eq)]
pub struct ImmediateToRegisterMemory {
    /// Set for a 16-bit operand and immediate.
    pub w: bool,
    pub mode: Mode,
    /// The register of the r/m code; in the memory modes only its code
    /// matters.
    pub rm: Register,
    pub disp_lo: Option<u8>,
    pub disp_hi: Option<u8>,
    pub data: Value,
}

impl ImmediateToRegisterMemory {
    /// The fields agree with one another as they do in every decoded
    /// instruction.
    pub open spec fn wf(self) -> bool {
        &&& self.rm.is_wide() == self.w
        &&& self.data.is_wide() == self.w
        &&& self.mode == self.mode.refined(self.rm)
        &&& self.mode == Mode::DirectAddress ==> self.rm.code() == 0b110
        &&& self.mode.carries(self.disp_lo, self.disp_hi)
    }

    /// The number of bytes of the encoding.
    pub open spec fn size(self) -> nat {
        2 + self.mode.displacement_len() + self.data.len()
    }

    /// The size qualifier in front of the immediate.
    pub open spec fn qualifier(w: bool) -> Seq<char> {
        if w {
            "word + "@
        } else {
            "byte + "@
        }
    }

    /// The line of assembly text: the immediate carries a size qualifier,
    /// since a memory destination has no width of its own.
    pub open spec fn text(self) -> Seq<char> {
        line(
            self.rm.operand_text(self.mode, self.disp_lo, self.disp_hi),
            Self::qualifier(self.w) + self.data.text(),
        )
    }

    /// What decoding yields: the fields of the two leading bytes, the
    /// displacement and the immediate behind it, or the failure of a
    /// buffer that ends too soon.
    pub open spec fn spec_decode(bytes: Seq<u8>) -> Result<Self, DecodeError> {
        if bytes.len() < 2 {
            Err(failure(bytes))
        } else {
            let w = has_bits(bytes[0], 0b01);
            let mode = operand_mode(bytes[1], w);
            let at = 2 + mode.displacement_len();
            if bytes.len() < at + (if w {
                2nat
            } else {
                1nat
            }) {
                Err(failure(bytes))
            } else {
                Ok(
                    ImmediateToRegisterMemory {
                        w,
                        mode,
                        rm: rm_register(bytes[1], w),
                        disp_lo: low_displacement(mode, bytes),
                        disp_hi: high_displacement(mode, bytes),
                        data: Value::read(w, bytes.skip(at as int)),
                    },
                )
            }
        }
    }

    /// With mode bits `00` and r/m code `110` the two bytes behind the
    /// mod-reg-r/m byte are an absolute address, the immediate follows
    /// them, and the destination is that address in brackets, never
    /// `[bp]`.
    pub proof fn lemma_direct_address(bytes: Seq<u8>)
        requires
            bytes.len() >= 2,
            mode_field(bytes[1]) == 0b00,
            rm_field(bytes[1]) == 0b110,
        ensures
            Self::spec_decode(bytes) is Ok <==> bytes.len() >= (if has_bits(bytes[0], 0b01) {
                6nat
            } else {
                5nat
            }),
            Self::spec_decode(bytes) matches Ok(ins) ==> {
                let operand = ins.rm.operand_text(ins.mode, ins.disp_lo, ins.disp_hi);
                &&& ins.mode == Mode::DirectAddress
                &&& ins.size() == 4 + ins.data.len()
                &&& ins.data == Value::read(ins.w, bytes.skip(4))
                &&& operand == address_text(bytes[2], bytes[3])
                &&& operand != "[bp]"@
                &&& ins.text() == line(operand, Self::qualifier(ins.w) + ins.data.text())
            },
    {
        let w = has_bits(bytes[0], 0b01);
        rm_register(bytes[1], w).lemma_direct_address_text(bytes[2], bytes[3]);
    }

    /// An 8-bit displacement of all ones is the displacement minus one,
    /// rendered as ` - 1` behind the base and index registers.
    pub proof fn lemma_byte_displacement_all_ones(bytes: Seq<u8>)
        requires
            Self::spec_decode(bytes) is Ok,
            mode_field(bytes[1]) == 0b01,
            bytes[2] == 0xFF,
        ensures
            Self::spec_decode(bytes) matches Ok(ins) && {
                let operand = "["@ + Mode::base_index(ins.rm) + " - 1"@ + "]"@;
                &&& ins.mode == Mode::Mem8
                &&& ins.mode.displacement(ins.disp_lo, ins.disp_hi) == -1
                &&& ins.text() == line(operand, Self::qualifier(ins.w) + ins.data.text())
            },
    {
        let w = has_bits(bytes[0], 0b01);
        rm_register(bytes[1], w).lemma_byte_displacement_all_ones();
    }

    /// An 8-bit immediate of all ones is the immediate minus one, rendered
    /// as `-1` behind the size qualifier.
    pub proof fn lemma_byte_immediate_all_ones(bytes: Seq<u8>)
        requires
            Self::spec_decode(bytes) is Ok,
            !has_bits(bytes[0], 0b01),
            bytes[2 + operand_mode(bytes[1], false).displacement_len() as int] == 0xFF,
        ensures
            Self::spec_decode(bytes) matches Ok(ins) && {
                &&& ins.data == Value::Short(0xFF)
                &&& ins.data.signed() == -1
                &&& ins.text() == line(
                    ins.rm.operand_text(ins.mode, ins.disp_lo, ins.disp_hi),
                    "byte + "@ + "-1"@,
                )
            },
    {
        Value::lemma_all_ones_is_minus_one();
    }

    /// Decodes the instruction at the start of `bytes`, without looking at
    /// the seven opcode bits.
    pub fn decode(bytes: &[u8]) -> (decoded: Result<Self, DecodeError>)
        ensures
            decoded == Self::spec_decode(bytes@),
            decoded matches Ok(ins) ==> ins.wf() && ins.size() <= bytes@.len(),
            decoded matches Err(error) ==> error == failure(bytes@),
    {
        if bytes.len() < 2 {
            return Err(fail(bytes));
        }
        let w = test_bits(bytes[0], 0b01);
        let (rm, mode) = decode_rm(bytes[1], w);
        let at = 2 + mode.displacement_bytes();
        let width: usize = if w {
            2
        } else {
            1
        };
        if bytes.len() < at + width {
            return Err(fail(bytes));
        }
        let (disp_lo, disp_hi) = read_displacement(bytes, mode);
        let data = Value::from(w, slice_subrange(bytes, at, bytes.len()));
        Ok(Self { w, mode, rm, disp_lo, disp_hi, data })
    }

    /// The number of bytes that the instruction takes.
    pub fn offset(&self) -> (len: usize)
        ensures
            len == self.size(),
    {
        let width: usize = match self.data {
            Value::Short(_) => 1,
            Value::Wide(_) => 2,
        };
        2 + self.mode.displacement_bytes() + width
    }

    /// Renders the instruction as one line of assembly text.
    pub fn to_string(&self) -> (text: String)
        requires
            self.wf(),
        ensures
            text@ == self.text(),
    {
        let dst = self.rm.memory_mode_to_string(self.mode, self.disp_lo, self.disp_hi);
        let mut src = if self.w {
            "word + ".to_owned()
        } else {
            "byte + ".to_owned()
        };
        let data = self.data.to_string();
        src.append(data.as_str());
        render_line(&dst, &src)
    }
}

/// A load of the accumulator from an absolute address: `1010000 w`, then
/// the address, low byte first.
#[derive(Debug, Clone, Copy, PartialEq, Eq)]
pub struct MemoryToAccumulator {
    /// Set for `ax`, clear for `al`.
    pub w: bool,
    pub addr_lo: u8,
    pub addr_hi: u8,
}

impl MemoryToAccumulator {
    /// The number of bytes of the encoding.
    pub open spec fn size(self) -> nat {
        3
    }

    /// The line of assembly text.
    pub open spec fn text(self) -> Seq<char> {
        line(accumulator(self.w).name(), address_text(self.addr_lo, self.addr_hi))
    }

    /// What decoding yields: the width flag and the two address bytes, or
    /// the failure of a buffer that ends too soon.
    pub open spec fn spec_decode(bytes: Seq<u8>) -> Result<Self, DecodeError> {
        if bytes.len() < 3 {
            Err(failure(bytes))
        } else {
            Ok(
                MemoryToAccumulator {
                    w: has_bits(bytes[0], 0b01),
                    addr_lo: bytes[1],
                    addr_hi: bytes[2],
                },
            )
        }
    }

    /// Decodes the instruction at the start of `bytes`, without looking at
    /// the seven opcode bits.
    pub fn decode(bytes: &[u8]) -> (decoded: Result<Self, DecodeError>)
        ensures
            decoded == Self::spec_decode(bytes@),
            decoded matches Ok(ins) ==> ins.size() <= bytes@.len(),
            decoded matches Err(error) ==> error == failure(bytes@),
    {
        if bytes.len() < 3 {
            return Err(fail(bytes));
        }
        let w = test_bits(bytes[0], 0b01);
        Ok(Self { w, addr_lo: bytes[1], addr_hi: bytes[2] })
    }

    /// The number of bytes that the instruction takes.
    pub fn offset(&self) -> (len: usize)
        ensures
            len == self.size(),
    {
        3
    }

    /// Renders the instruction as one line of assembly text.
    pub fn to_string(&self) -> (text: String)
        ensures
            text@ == self.text(),
    {
        let dst = if self.w {
            Register::AX
        } else {
            Register::AL
        }.register_mode_to_string();
        let src = render_address(self.addr_lo, self.addr_hi);
        render_line(&dst, &src)
    }
}

/// A store of the accumulator to an absolute address: `1010001 w`, then
/// the address, low byte first.
#[derive(Debug, Clone, Copy, PartialEq, Eq)]
pub struct AccumulatorToMemory {
    /// Set for `ax`, clear for `al`.
    pub w: bool,
    pub addr_lo: u8,
    pub addr_hi: u8,
}

impl AccumulatorToMemory {
    /// The number of bytes of the encoding.
    pub open spec fn size(self) -> nat {
        3
    }

    /// The line of assembly text.
    pub open spec fn text(self) -> Seq<char> {
        line(address_text(self.addr_lo, self.addr_hi), accumulator(self.w).name())
    }

    /// What decoding yields: the width flag and the two address bytes, or
    /// the failure of a buffer that ends too soon.
    pub open spec fn spec_decode(bytes: Seq<u8>) -> Result<Self, DecodeError> {
        if bytes.len() < 3 {
            Err(failure(bytes))
        } else {
            Ok(
                AccumulatorToMemory {
                    w: has_bits(bytes[0], 0b01),
                    addr_lo: bytes[1],
                    addr_hi: bytes[2],
                },
            )
        }
    }

    /// Decodes the instruction at the start of `bytes`, without looking at
    /// the seven opcode bits.
    pub fn decode(bytes: &[u8]) -> (decoded: Result<Self, DecodeError>)
        ensures
            decoded == Self::spec_decode(bytes@),
            decoded matches Ok(ins) ==> ins.size() <= bytes@.len(),
            decoded matches Err(error) ==> error == failure(bytes@),
    {
        if bytes.len() < 3 {
            return Err(fail(bytes));
        }
        let w = test_bits(bytes[0], 0b01);
        Ok(Self { w, addr_lo: bytes[1], addr_hi: bytes[2] })
    }

    /// The number of bytes that the instruction takes.
    pub fn offset(&self) -> (len: usize)
        ensures
            len == self.size(),
    {
        3
    }

    /// Renders the instruction as one line of assembly text.
    pub fn to_string(&self) -> (text: String)
        ensures
            text@ == self.text(),
    {
        let dst = render_address(self.addr_lo, self.addr_hi);
        let src = if self.w {
            Register::AX
        } else {
            Register::AL
        }.register_mode_to_string();
        render_line(&dst, &src)
    }
}

/// A move of a register-or-memory operand into a segment register. The
/// form is recognised by its opcode byte and never decoded.
#[derive(Debug, Clone, Copy, PartialEq, Eq)]
pub struct RegisterMemoryToSegmentRegister {}

impl RegisterMemoryToSegmentRegister {
    /// Fails: the form is not supported.
    pub fn decode(bytes: &[u8]) -> (decoded: Result<Self, DecodeError>)
        ensures
            decoded == Err::<Self, DecodeError>(failure(bytes@)),
    {
        Err(fail(bytes))
    }
}

/// A move of a segment register into a register-or-memory operand. The
/// form is recognised by its opcode byte and never decoded.
#[derive(Debug, Clone, Copy, PartialEq, Eq)]
pub struct SegmentRegisterToRegisterMemory {}

impl SegmentRegisterToRegisterMemory {
    /// Fails: the form is not supported.
    pub fn decode(bytes: &[u8]) -> (decoded: Result<Self, DecodeError>)
        ensures
            decoded == Err::<Self, DecodeError>(failure(bytes@)),
    {
        Err(fail(bytes))
    }
}

} // verus!
