use disasm8086::bits::{
    mode_bits, reg_bits, rm_bits, sign_extend_byte, sign_extend_word, test_bits, word,
};
use disasm8086::mode::Mode;
use disasm8086::register::Register;
use disasm8086::text::{push_decimal, push_digits, to_decimal};
use disasm8086::value::Value;

const NARROW: [Register; 8] = [
    Register::AL,
    Register::CL,
    Register::DL,
    Register::BL,
    Register::AH,
    Register::CH,
    Register::DH,
    Register::BH,
];

const WIDE: [Register; 8] = [
    Register::AX,
    Register::CX,
    Register::DX,
    Register::BX,
    Register::SP,
    Register::BP,
    Register::SI,
    Register::DI,
];

#[test]
fn register_table() {
    for code in 0..8u8 {
        assert_eq!(Register::decode_reg(code, false), NARROW[code as usize]);
        assert_eq!(Register::decode_reg(code, true), WIDE[code as usize]);
        assert_eq!(Register::new(code, false), NARROW[code as usize]);
        assert_eq!(Register::new(code, true), WIDE[code as usize]);
    }
}

#[test]
fn register_names() {
    let narrow = ["al", "cl", "dl", "bl", "ah", "ch", "dh", "bh"];
    let wide = ["ax", "cx", "dx", "bx", "sp", "bp", "si", "di"];
    for code in 0..8 {
        assert_eq!(NARROW[code].register_mode_to_string(), narrow[code]);
        assert_eq!(WIDE[code].register_mode_to_string(), wide[code]);
        assert_eq!(NARROW[code].to_str(), narrow[code]);
        assert_eq!(WIDE[code].to_str(), wide[code]);
    }
}

#[test]
fn mode_table() {
    assert_eq!(Mode::decode(0b00), Mode::Mem);
    assert_eq!(Mode::decode(0b01), Mode::Mem8);
    assert_eq!(Mode::decode(0b10), Mode::Mem16);
    assert_eq!(Mode::decode(0b11), Mode::Reg);
    for bits in 0..4u8 {
        assert_eq!(Mode::from(bits), Mode::decode(bits));
    }
}

#[test]
fn direct_address_rule() {
    for code in 0..8 {
        for rm in [NARROW[code], WIDE[code]] {
            let expected = if code == 0b110 { Mode::DirectAddress } else { Mode::Mem };
            assert_eq!(Mode::Mem.refine(rm), expected);
            assert_eq!(Mode::Mem8.refine(rm), Mode::Mem8);
            assert_eq!(Mode::Mem16.refine(rm), Mode::Mem16);
            assert_eq!(Mode::Reg.refine(rm), Mode::Reg);
            assert_eq!(Mode::DirectAddress.refine(rm), Mode::DirectAddress);
        }
    }
}

#[test]
fn displacement_bytes_of_each_mode() {
    assert_eq!(Mode::Mem.displacement_bytes(), 0);
    assert_eq!(Mode::Reg.displacement_bytes(), 0);
    assert_eq!(Mode::Mem8.displacement_bytes(), 1);
    assert_eq!(Mode::Mem16.displacement_bytes(), 2);
    assert_eq!(Mode::DirectAddress.displacement_bytes(), 2);
}

#[test]
fn effective_addresses() {
    let expected =
        ["[bx + si]", "[bx + di]", "[bp + si]", "[bp + di]", "[si]", "[di]", "[bp]", "[bx]"];
    let terms = ["bx + si", "bx + di", "bp + si", "bp + di", "si", "di", "bp", "bx"];
    for code in 0..8 {
        assert_eq!(Mode::get_effective_address(&NARROW[code]), expected[code]);
        assert_eq!(Mode::get_effective_address(&WIDE[code]), expected[code]);
        assert_eq!(Mode::base_index_to_string(&NARROW[code]), terms[code]);
        assert_eq!(Mode::base_index_to_string(&WIDE[code]), terms[code]);
    }
}

#[test]
fn operand_text_of_each_mode() {
    let rm = Register::CX;
    assert_eq!(rm.memory_mode_to_string(Mode::Reg, None, None), "cx");
    assert_eq!(rm.memory_mode_to_string(Mode::Mem, None, None), "[bx + di]");
    assert_eq!(rm.memory_mode_to_string(Mode::Mem8, Some(4), None), "[bx + di + 4]");
    assert_eq!(rm.memory_mode_to_string(Mode::Mem8, Some(0xDB), None), "[bx + di - 37]");
    assert_eq!(rm.memory_mode_to_string(Mode::Mem8, Some(0), None), "[bx + di]");
    assert_eq!(rm.memory_mode_to_string(Mode::Mem16, Some(0x87), Some(0x13)), "[bx + di + 4999]");
    assert_eq!(rm.memory_mode_to_string(Mode::Mem16, Some(0xD4), Some(0xFE)), "[bx + di - 300]");
    assert_eq!(rm.memory_mode_to_string(Mode::Mem16, Some(0), Some(0)), "[bx + di]");
    let direct = Register::SI;
    assert_eq!(direct.memory_mode_to_string(Mode::DirectAddress, Some(0x82), Some(0x0D)), "[3458]");
    assert_eq!(direct.memory_mode_to_string(Mode::DirectAddress, Some(0xFF), Some(0xFF)), "[65535]");
    assert_eq!(direct.memory_mode_to_string(Mode::DirectAddress, Some(0), Some(0)), "[0]");
}

#[test]
fn immediate_values() {
    assert_eq!(Value::from(false, &[0x0C]), Value::Short(0x0C));
    assert_eq!(Value::from(false, &[0x0C, 0xFF]), Value::Short(0x0C));
    assert_eq!(Value::from(true, &[0x6C, 0x0F]), Value::Wide(3948));
    assert_eq!(Value::from(true, &[0x94, 0xF0, 0x00]), Value::Wide(0xF094));
}

#[test]
fn immediate_sign_extension() {
    assert_eq!(Value::Short(0xFF).to_i16(), -1);
    assert_eq!(Value::Short(0x7F).to_i16(), 127);
    assert_eq!(Value::Short(0x80).to_i16(), -128);
    assert_eq!(Value::Short(0).to_i16(), 0);
    assert_eq!(Value::Wide(0xFFFF).to_i16(), -1);
    assert_eq!(Value::Wide(0x7FFF).to_i16(), 32767);
    assert_eq!(Value::Wide(0x8000).to_i16(), -32768);
    assert_eq!(Value::Wide(0x00FF).to_i16(), 255);
}

#[test]
fn immediate_text() {
    assert_eq!(Value::Short(0xFF).to_string(), "-1");
    assert_eq!(Value::Short(0xF4).to_string(), "-12");
    assert_eq!(Value::Short(12).to_string(), "12");
    assert_eq!(Value::Wide(0xFFFF).to_string(), "-1");
    assert_eq!(Value::Wide(0xF094).to_string(), "-3948");
    assert_eq!(Value::Wide(3948).to_string(), "3948");
    assert_eq!(Value::Wide(0).to_string(), "0");
}

#[test]
fn decimal_text() {
    assert_eq!(to_decimal(0), "0");
    assert_eq!(to_decimal(7), "7");
    assert_eq!(to_decimal(9), "9");
    assert_eq!(to_decimal(10), "10");
    assert_eq!(to_decimal(99), "99");
    assert_eq!(to_decimal(100), "100");
    assert_eq!(to_decimal(1234567890), "1234567890");
    assert_eq!(to_decimal(65535), "65535");
    assert_eq!(to_decimal(-1), "-1");
    assert_eq!(to_decimal(-10), "-10");
    assert_eq!(to_decimal(-32768), "-32768");
    assert_eq!(to_decimal(i32::MAX), "2147483647");
    assert_eq!(to_decimal(i32::MIN), "-2147483648");
}

#[test]
fn decimal_text_agrees_with_the_standard_formatting() {
    for v in -70000..70000 {
        assert_eq!(to_decimal(v), format!("{}", v));
    }
}

#[test]
fn decimal_text_is_appended() {
    let mut out = String::from("x = ");
    push_decimal(&mut out, -42);
    assert_eq!(out, "x = -42");
    push_digits(&mut out, 0);
    assert_eq!(out, "x = -420");
    push_digits(&mut out, u64::MAX);
    assert_eq!(out, "x = -42018446744073709551615");
}

#[test]
fn bit_fields() {
    assert_eq!(mode_bits(0b11_011_000), 0b11);
    assert_eq!(reg_bits(0b11_011_000), 0b011);
    assert_eq!(rm_bits(0b11_011_000), 0b000);
    assert_eq!(mode_bits(0b01_000_001), 0b01);
    assert_eq!(reg_bits(0b01_000_001), 0b000);
    assert_eq!(rm_bits(0b01_000_001), 0b001);
    assert_eq!(mode_bits(0xFF), 3);
    assert_eq!(reg_bits(0xFF), 7);
    assert_eq!(rm_bits(0xFF), 7);
    assert!(test_bits(0x89, 0b01));
    assert!(!test_bits(0x89, 0b10));
    assert!(test_bits(0x8B, 0b10));
    assert!(test_bits(0xB9, 0b1000));
    assert!(!test_bits(0xB1, 0b1000));
}

#[test]
fn words_and_sign_extension() {
    assert_eq!(word(0x34, 0x12), 0x1234);
    assert_eq!(word(0xFF, 0xFF), 0xFFFF);
    assert_eq!(word(0, 0), 0);
    assert_eq!(word(0x05, 0x00), 5);
    assert_eq!(sign_extend_byte(0xFF), -1);
    assert_eq!(sign_extend_byte(0xDB), -37);
    assert_eq!(sign_extend_byte(0x80), -128);
    assert_eq!(sign_extend_byte(0x7F), 127);
    assert_eq!(sign_extend_byte(0), 0);
    assert_eq!(sign_extend_word(0xFFFF), -1);
    assert_eq!(sign_extend_word(0xFED4), -300);
    assert_eq!(sign_extend_word(0x8000), -32768);
    assert_eq!(sign_extend_word(0x7FFF), 32767);
    for b in 0..=255u8 {
        assert_eq!(sign_extend_byte(b), b as i8 as i16);
    }
    for x in 0..=65535u16 {
        assert_eq!(sign_extend_word(x), x as i16);
    }
}
