use disasm8086::error::DecodeError;
use disasm8086::fields::{OneByteInstruction, TwoByteInstruction};
use disasm8086::instruction::opcode::{MovType, OpCode};
use disasm8086::instruction::Instruction;
use disasm8086::mov::render_line;

#[test]
fn fields_of_the_opcode_byte() {
    assert_eq!(
        OneByteInstruction::decode(&[0x89]),
        Ok(OneByteInstruction {
            opcode: OpCode::MOV(MovType::RegisterMemoryToFromRegister),
            d: 0,
            w: 1,
        })
    );
    assert_eq!(
        OneByteInstruction::decode(&[0x8A, 0x00]),
        Ok(OneByteInstruction {
            opcode: OpCode::MOV(MovType::RegisterMemoryToFromRegister),
            d: 1,
            w: 0,
        })
    );
}

#[test]
fn fields_of_the_two_leading_bytes() {
    assert_eq!(
        TwoByteInstruction::decode(&[0x89, 0xD8]),
        Ok(TwoByteInstruction {
            opcode: OpCode::MOV(MovType::RegisterMemoryToFromRegister),
            d: 0,
            w: 1,
            mode: 0b11,
            reg: 0b011,
            rm: 0b000,
        })
    );
    assert_eq!(
        TwoByteInstruction::decode(&[0x8B, 0x41, 0xDB]),
        Ok(TwoByteInstruction {
            opcode: OpCode::MOV(MovType::RegisterMemoryToFromRegister),
            d: 1,
            w: 1,
            mode: 0b01,
            reg: 0b000,
            rm: 0b001,
        })
    );
}

#[test]
fn fields_of_other_opcodes_are_unsupported() {
    assert_eq!(OneByteInstruction::decode(&[]), Err(DecodeError::Empty));
    assert_eq!(TwoByteInstruction::decode(&[]), Err(DecodeError::Empty));
    assert_eq!(OneByteInstruction::decode(&[0xB1, 0x0C]), Err(DecodeError::Unsupported(0xB1)));
    assert_eq!(TwoByteInstruction::decode(&[0xB1, 0x0C]), Err(DecodeError::Unsupported(0xB1)));
    assert_eq!(TwoByteInstruction::decode(&[0x00, 0x00]), Err(DecodeError::Unsupported(0x00)));
    assert_eq!(TwoByteInstruction::decode(&[0x89]), Err(DecodeError::Unsupported(0x89)));
}

#[test]
fn register_move_from_raw_fields() {
    let word = TwoByteInstruction::decode(&[0x89, 0xD8]).unwrap();
    assert_eq!(word.to_string(), "mov ax, bx\r\n");
    let byte = TwoByteInstruction::decode(&[0x88, 0xC6]).unwrap();
    assert_eq!(byte.to_string(), "mov dh, al\r\n");
    let reversed = TwoByteInstruction::decode(&[0x8A, 0xC6]).unwrap();
    assert_eq!(reversed.to_string(), "mov al, dh\r\n");
}

#[test]
fn raw_fields_and_decoded_instruction_give_the_same_line() {
    for first in 0x88..=0x8Bu8 {
        for second in 0xC0..=0xFFu8 {
            let bytes = [first, second];
            let fields = TwoByteInstruction::decode(&bytes).unwrap();
            let instruction = Instruction::decode(&bytes).unwrap();
            assert_eq!(fields.to_string(), instruction.to_string());
        }
    }
}

#[test]
fn line_of_two_operands() {
    assert_eq!(render_line(&"ax".to_string(), &"[bp]".to_string()), "mov ax, [bp]\r\n");
    assert_eq!(render_line(&String::new(), &String::new()), "mov , \r\n");
}
