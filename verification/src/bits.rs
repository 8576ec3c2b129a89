//! The bit fields of the two leading instruction bytes, and the numbers
//! that trailing bytes stand for.

use vstd::prelude::*;

verus! {

/// Whether every bit of `mask` is set in `byte`.
pub open spec fn has_bits(byte: u8, mask: u8) -> bool {
    byte & mask == mask
}

/// The two mode bits of a mod-reg-r/m byte.
pub open spec fn mode_field(byte: u8) -> u8 {
    byte >> 6
}

/// The three register bits in the middle of a mod-reg-r/m byte.
pub open spec fn reg_field(byte: u8) -> u8 {
    (byte >> 3) & 7
}

/// The three low bits of a byte: the r/m field of a mod-reg-r/m byte, or
/// the register field of an opcode byte that carries one.
pub open spec fn rm_field(byte: u8) -> u8 {
    byte & 7
}

/// The 16-bit number whose low byte is `lo` and whose high byte is `hi`.
pub open spec fn word_value(lo: u8, hi: u8) -> int {
    lo + 256 * hi
}

/// The low byte of a 16-bit number.
pub open spec fn low_byte(x: u16) -> u8 {
    (x % 256) as u8
}

/// The high byte of a 16-bit number.
pub open spec fn high_byte(x: u16) -> u8 {
    (x / 256) as u8
}

/// A byte read as a two's-complement number: `0xFF` is `-1`.
pub open spec fn signed_byte(b: u8) -> int {
    if b < 128 {
        b as int
    } else {
        b - 256
    }
}

/// A 16-bit number read as a two's-complement number: `0xFFFF` is `-1`.
pub open spec fn signed_word(x: u16) -> int {
    if x < 32768 {
        x as int
    } else {
        x - 65536
    }
}

/// The three fields of a mod-reg-r/m byte stay within their widths.
pub proof fn lemma_field_ranges(byte: u8)
    ensures
        mode_field(byte) < 4,
        reg_field(byte) < 8,
        rm_field(byte) < 8,
{
    assert(byte >> 6 < 4) by (bit_vector);
    assert((byte >> 3) & 7 < 8) by (bit_vector);
    assert(byte & 7 < 8) by (bit_vector);
}

/// A mod-reg-r/m byte is its three fields side by side: the mode bits
/// count 64 each, the register bits 8 each, the r/m bits 1 each.
pub proof fn lemma_fields_compose_byte(byte: u8)
    ensures
        byte == 64 * mode_field(byte) + 8 * reg_field(byte) + rm_field(byte),
{
    assert(byte == 64 * (byte >> 6) + 8 * ((byte >> 3) & 7) + (byte & 7)) by (bit_vector);
}

/// A single-bit mask tests the binary digit of its place.
pub proof fn lemma_flag_bits(byte: u8)
    ensures
        has_bits(byte, 0b0001) <==> byte % 2 == 1,
        has_bits(byte, 0b0010) <==> (byte / 2) % 2 == 1,
        has_bits(byte, 0b1000) <==> (byte / 8) % 2 == 1,
{
    assert((byte & 0b0001 == 0b0001) <==> byte % 2 == 1) by (bit_vector);
    assert((byte & 0b0010 == 0b0010) <==> (byte / 2) % 2 == 1) by (bit_vector);
    assert((byte & 0b1000 == 0b1000) <==> (byte / 8) % 2 == 1) by (bit_vector);
}

/// Tests whether every bit of `mask` is set in `byte`.
pub fn test_bits(byte: u8, mask: u8) -> (set: bool)
    ensures
        set == has_bits(byte, mask),
{
    byte & mask == mask
}

/// Extracts the two mode bits of a mod-reg-r/m byte.
pub fn mode_bits(byte: u8) -> (bits: u8)
    ensures
        bits == mode_field(byte),
        bits < 4,
{
    proof {
        lemma_field_ranges(byte);
    }
    byte >> 6
}

/// Extracts the register bits in the middle of a mod-reg-r/m byte.
pub fn reg_bits(byte: u8) -> (bits: u8)
    ensures
        bits == reg_field(byte),
        bits < 8,
{
    proof {
        lemma_field_ranges(byte);
    }
    (byte >> 3) & 7
}

/// Extracts the three low bits of a byte.
pub fn rm_bits(byte: u8) -> (bits: u8)
    ensures
        bits == rm_field(byte),
        bits < 8,
{
    proof {
        lemma_field_ranges(byte);
    }
    byte & 7
}

/// Joins two bytes, low byte first, into a 16-bit number.
pub fn word(lo: u8, hi: u8) -> (x: u16)
    ensures
        x == word_value(lo, hi),
        low_byte(x) == lo,
        high_byte(x) == hi,
{
    let high: u16 = hi as u16;
    let low: u16 = lo as u16;
    high * 256 + low
}

/// Reads a byte as a signed number.
pub fn sign_extend_byte(b: u8) -> (v: i16)
    ensures
        v == signed_byte(b),
{
    if b < 128 {
        b as i16
    } else {
        b as i16 - 256
    }
}

/// Reads a 16-bit number as a signed number.
pub fn sign_extend_word(x: u16) -> (v: i16)
    ensures
        v == signed_word(x),
{
    if x < 32768 {
        x as i16
    } else {
        let above: u16 = x - 32768;
        above as i16 - 32767 - 1
    }
}

} // verus!
