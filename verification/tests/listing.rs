use disasm8086::dissassemble;

const HEADER: &str = "bits 16\r\n\r\n";

fn listing_of(bytes: &[u8]) -> String {
    dissassemble(bytes.to_vec()).expect("a listing is always returned")
}

fn lines_of(bytes: &[u8]) -> Vec<String> {
    let text = listing_of(bytes);
    assert!(text.starts_with(HEADER));
    let body = &text[HEADER.len()..];
    assert!(body.is_empty() || body.ends_with("\r\n"));
    body.split_terminator("\r\n").map(|line| line.to_string()).collect()
}

#[test]
fn empty_buffer_gives_the_header_alone() {
    assert_eq!(listing_of(&[]), "bits 16\r\n\r\n");
}

#[test]
fn register_to_register_word_move() {
    assert_eq!(listing_of(&[0x89, 0xD8]), "bits 16\r\n\r\nmov ax, bx\r\n");
}

#[test]
fn immediate_to_byte_register() {
    assert_eq!(listing_of(&[0xB1, 0x0C]), "bits 16\r\n\r\nmov cl, 12\r\n");
}

#[test]
fn negative_byte_displacement() {
    assert_eq!(listing_of(&[0x8B, 0x41, 0xDB]), "bits 16\r\n\r\nmov ax, [bx + di - 37]\r\n");
}

#[test]
fn unsupported_opcode_gives_the_header_alone() {
    assert_eq!(listing_of(&[0x00]), "bits 16\r\n\r\n");
}

#[test]
fn single_register_move() {
    assert_eq!(lines_of(&[0x89, 0xD9]), vec!["mov cx, bx"]);
}

#[test]
fn many_register_moves() {
    let bytes = [
        0x89, 0xD9, 0x88, 0xE5, 0x89, 0xDA, 0x89, 0xDE, 0x89, 0xFB, 0x88, 0xC8, 0x88, 0xED, 0x89,
        0xC3, 0x89, 0xF3, 0x89, 0xFC, 0x89, 0xC5,
    ];
    assert_eq!(
        lines_of(&bytes),
        vec![
            "mov cx, bx",
            "mov ch, ah",
            "mov dx, bx",
            "mov si, bx",
            "mov bx, di",
            "mov al, cl",
            "mov ch, ch",
            "mov bx, ax",
            "mov bx, si",
            "mov sp, di",
            "mov bp, ax",
        ]
    );
}

#[test]
fn immediates_and_memory_operands() {
    let bytes = [
        0x89, 0xDE, 0x88, 0xC6, 0xB1, 0x0C, 0xB5, 0xF4, 0xB9, 0x0C, 0x00, 0xB9, 0xF4, 0xFF, 0xBA,
        0x6C, 0x0F, 0xBA, 0x94, 0xF0, 0x8A, 0x00, 0x8B, 0x1B, 0x8B, 0x56, 0x00, 0x8A, 0x60, 0x04,
        0x8A, 0x80, 0x87, 0x13, 0x89, 0x09, 0x88, 0x0A, 0x88, 0x6E, 0x00,
    ];
    assert_eq!(
        lines_of(&bytes),
        vec![
            "mov si, bx",
            "mov dh, al",
            "mov cl, 12",
            "mov ch, -12",
            "mov cx, 12",
            "mov cx, -12",
            "mov dx, 3948",
            "mov dx, -3948",
            "mov al, [bx + si]",
            "mov bx, [bp + di]",
            "mov dx, [bp]",
            "mov ah, [bx + si + 4]",
            "mov al, [bx + si + 4999]",
            "mov [bx + di], cx",
            "mov [bp + si], cl",
            "mov [bp], ch",
        ]
    );
}

#[test]
fn signed_displacements_direct_addresses_and_accumulator_moves() {
    let bytes = [
        0x8B, 0x41, 0xDB, 0x89, 0x8C, 0xD4, 0xFE, 0x8B, 0x57, 0xE0, 0xC6, 0x03, 0x07, 0xC7, 0x85,
        0x85, 0x03, 0x5B, 0x01, 0x8B, 0x2E, 0x05, 0x00, 0x8B, 0x1E, 0x82, 0x0D, 0xA1, 0xFB, 0x09,
        0xA1, 0x10, 0x00, 0xA3, 0xFA, 0x09, 0xA3, 0x0F, 0x00,
    ];
    assert_eq!(
        lines_of(&bytes),
        vec![
            "mov ax, [bx + di - 37]",
            "mov [si - 300], cx",
            "mov dx, [bx - 32]",
            "mov [bp + di], byte + 7",
            "mov [di + 901], word + 347",
            "mov bp, [5]",
            "mov bx, [3458]",
            "mov ax, [2555]",
            "mov ax, [16]",
            "mov [2554], ax",
            "mov [15], ax",
        ]
    );
}

#[test]
fn byte_accumulator_moves() {
    assert_eq!(lines_of(&[0xA0, 0x10, 0x00]), vec!["mov al, [16]"]);
    assert_eq!(lines_of(&[0xA2, 0xFF, 0xFF]), vec!["mov [65535], al"]);
}

#[test]
fn listing_stops_at_the_first_unsupported_opcode() {
    assert_eq!(
        listing_of(&[0x89, 0xD8, 0x00, 0x89, 0xD8]),
        "bits 16\r\n\r\nmov ax, bx\r\n"
    );
}

#[test]
fn listing_stops_at_a_segment_register_move() {
    assert_eq!(
        listing_of(&[0xB1, 0x0C, 0x8E, 0xD8, 0xB1, 0x0C]),
        "bits 16\r\n\r\nmov cl, 12\r\n"
    );
    assert_eq!(listing_of(&[0x8C, 0xD8]), "bits 16\r\n\r\n");
}

#[test]
fn listing_stops_at_a_truncated_instruction() {
    assert_eq!(listing_of(&[0x89, 0xD8, 0x8B]), "bits 16\r\n\r\nmov ax, bx\r\n");
    assert_eq!(listing_of(&[0x89, 0xD8, 0x8B, 0x41]), "bits 16\r\n\r\nmov ax, bx\r\n");
    assert_eq!(listing_of(&[0xB9, 0x0C]), "bits 16\r\n\r\n");
    assert_eq!(listing_of(&[0xC7, 0x85, 0x85, 0x03, 0x5B]), "bits 16\r\n\r\n");
}

#[test]
fn decoding_the_same_buffer_twice_gives_the_same_text() {
    let bytes = vec![0x8B, 0x41, 0xDB, 0xC6, 0x03, 0x07, 0xA1, 0xFB, 0x09, 0x00, 0x12];
    let first = dissassemble(bytes.clone());
    let second = dissassemble(bytes);
    assert_eq!(first, second);
    assert_eq!(
        first,
        Ok("bits 16\r\n\r\nmov ax, [bx + di - 37]\r\nmov [bp + di], byte + 7\r\nmov ax, [2555]\r\n"
            .to_string())
    );
}

#[test]
fn byte_displacement_of_all_ones_is_minus_one() {
    assert_eq!(lines_of(&[0x8B, 0x41, 0xFF]), vec!["mov ax, [bx + di - 1]"]);
    assert_eq!(lines_of(&[0x88, 0x6E, 0xFF]), vec!["mov [bp - 1], ch"]);
    assert_eq!(lines_of(&[0xC6, 0x43, 0xFF, 0x07]), vec!["mov [bp + di - 1], byte + 7"]);
}

#[test]
fn byte_immediate_of_all_ones_is_minus_one() {
    assert_eq!(lines_of(&[0xB1, 0xFF]), vec!["mov cl, -1"]);
    assert_eq!(lines_of(&[0xC6, 0x03, 0xFF]), vec!["mov [bp + di], byte + -1"]);
}

#[test]
fn word_values_of_all_ones() {
    assert_eq!(lines_of(&[0xB9, 0xFF, 0xFF]), vec!["mov cx, -1"]);
    assert_eq!(lines_of(&[0x8B, 0x81, 0xFF, 0xFF]), vec!["mov ax, [bx + di - 1]"]);
    assert_eq!(lines_of(&[0xC7, 0x03, 0xFF, 0xFF]), vec!["mov [bp + di], word + -1"]);
    assert_eq!(lines_of(&[0xA1, 0xFF, 0xFF]), vec!["mov ax, [65535]"]);
}

#[test]
fn extreme_displacements() {
    assert_eq!(lines_of(&[0x8B, 0x41, 0x7F]), vec!["mov ax, [bx + di + 127]"]);
    assert_eq!(lines_of(&[0x8B, 0x41, 0x80]), vec!["mov ax, [bx + di - 128]"]);
    assert_eq!(lines_of(&[0x8B, 0x81, 0xFF, 0x7F]), vec!["mov ax, [bx + di + 32767]"]);
    assert_eq!(lines_of(&[0x8B, 0x81, 0x00, 0x80]), vec!["mov ax, [bx + di - 32768]"]);
}

#[test]
fn zero_displacement_is_left_out() {
    assert_eq!(lines_of(&[0x8B, 0x41, 0x00]), vec!["mov ax, [bx + di]"]);
    assert_eq!(lines_of(&[0x8B, 0x81, 0x00, 0x00]), vec!["mov ax, [bx + di]"]);
    assert_eq!(lines_of(&[0x8B, 0x46, 0x00]), vec!["mov ax, [bp]"]);
}

#[test]
fn mode_zero_with_base_pointer_code_is_a_direct_address() {
    assert_eq!(lines_of(&[0x8B, 0x2E, 0x05, 0x00]), vec!["mov bp, [5]"]);
    assert_eq!(lines_of(&[0x8A, 0x06, 0x10, 0x00]), vec!["mov al, [16]"]);
    assert_eq!(lines_of(&[0x89, 0x0E, 0xFF, 0xFF]), vec!["mov [65535], cx"]);
    assert_eq!(lines_of(&[0x88, 0x0E, 0x00, 0x00]), vec!["mov [0], cl"]);
    assert_eq!(
        lines_of(&[0xC7, 0x06, 0x02, 0x00, 0x5B, 0x01]),
        vec!["mov [2], word + 347"]
    );
    assert_eq!(lines_of(&[0xC6, 0x06, 0x02, 0x00, 0x5B]), vec!["mov [2], byte + 91"]);
}

#[test]
fn immediate_into_a_register_operand() {
    assert_eq!(lines_of(&[0xC7, 0xC1, 0x0C, 0x00]), vec!["mov cx, word + 12"]);
    assert_eq!(lines_of(&[0xC6, 0xC1, 0x0C]), vec!["mov cl, byte + 12"]);
}

#[test]
fn every_base_and_index_pair() {
    let bytes = [
        0x8B, 0x00, 0x8B, 0x01, 0x8B, 0x02, 0x8B, 0x03, 0x8B, 0x04, 0x8B, 0x05, 0x8B, 0x07, 0x8B,
        0x46, 0x01,
    ];
    assert_eq!(
        lines_of(&bytes),
        vec![
            "mov ax, [bx + si]",
            "mov ax, [bx + di]",
            "mov ax, [bp + si]",
            "mov ax, [bp + di]",
            "mov ax, [si]",
            "mov ax, [di]",
            "mov ax, [bx]",
            "mov ax, [bp + 1]",
        ]
    );
}

#[test]
fn every_line_ends_with_carriage_return_and_line_feed() {
    let text = listing_of(&[0x89, 0xD8, 0xB1, 0x0C]);
    assert_eq!(text, "bits 16\r\n\r\nmov ax, bx\r\nmov cl, 12\r\n");
    assert_eq!(text.matches("\r\n").count(), 4);
    assert_eq!(text.matches('\n').count(), 4);
}
