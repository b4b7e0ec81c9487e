use disasm8086::decode::decode_at;
use disasm8086::instruction::DecodeError;
use disasm8086::render::{
    decimal_digits_string, header_lines, render_line, signed_decimal_string,
};
use disasm8086::{disassemble, Config};

fn line_of(bytes: &[u8]) -> String {
    render_line(&decode_at(bytes, 0).unwrap())
}

#[test]
fn renders_mov_register_to_register() {
    assert_eq!(line_of(&[0x89, 0xC1]), "mov cx, ax");
}

#[test]
fn renders_mov_register_to_register_reversed_direction() {
    // d=1: the reg field is the destination
    assert_eq!(line_of(&[0x8B, 0xC1]), "mov ax, cx");
}

#[test]
fn renders_mov_immediate_to_register() {
    assert_eq!(line_of(&[0xB9, 0xE8, 0x03]), "mov cx, 1000");
}

#[test]
fn renders_narrow_mov_immediate_with_byte_register() {
    assert_eq!(line_of(&[0xB1, 0x05]), "mov cl, 5");
}

#[test]
fn renders_negative_immediate_not_unsigned() {
    // the immediate byte 0xEC must render as -20, never as 236
    assert_eq!(line_of(&[0x83, 0xC0, 0xEC]), "add ax, -20");
    assert_eq!(line_of(&[0x81, 0xC0, 0xEC, 0xFF]), "add ax, -20");
}

#[test]
fn renders_direct_address_not_bp_expression() {
    assert_eq!(line_of(&[0x89, 0x0E, 0x10, 0x00]), "mov [16], cx");
}

#[test]
fn renders_bp_base_when_a_displacement_is_declared() {
    assert_eq!(line_of(&[0x89, 0x4E, 0x00]), "mov [bp + 0], cx");
}

#[test]
fn renders_memory_without_displacement() {
    assert_eq!(line_of(&[0x8A, 0x00]), "mov al, [bx + si]");
}

#[test]
fn renders_negative_eight_bit_displacement() {
    assert_eq!(line_of(&[0x89, 0x41, 0xF0]), "mov [bx + di + -16], ax");
}

#[test]
fn renders_sixteen_bit_displacement() {
    assert_eq!(line_of(&[0x8B, 0x82, 0xE8, 0x03]), "mov ax, [bp + si + 1000]");
}

#[test]
fn renders_arith_register_forms() {
    assert_eq!(line_of(&[0x01, 0xC1]), "add cx, ax");
    assert_eq!(line_of(&[0x29, 0xC1]), "sub cx, ax");
    assert_eq!(line_of(&[0x39, 0xC1]), "cmp cx, ax");
}

#[test]
fn renders_arith_immediate_to_memory() {
    assert_eq!(line_of(&[0x81, 0x06, 0xE8, 0x03, 0x05, 0x00]), "add [1000], 5");
    assert_eq!(line_of(&[0x83, 0x07, 0x02]), "add [bx], 2");
}

#[test]
fn renders_arith_immediate_to_accumulator() {
    assert_eq!(line_of(&[0x04, 0x09]), "add al, 9");
    assert_eq!(line_of(&[0x2C, 0x01]), "sub al, 1");
    assert_eq!(line_of(&[0x3D, 0xE8, 0x03]), "cmp ax, 1000");
}

#[test]
fn renders_conditional_jump_with_raw_signed_displacement() {
    // opcode 0x75 with displacement byte 0xFE: the literal value -2
    assert_eq!(line_of(&[0x75, 0xFE]), "jne/jnz, -2");
}

#[test]
fn renders_every_jump_mnemonic() {
    assert_eq!(line_of(&[0x74, 0x00]), "je/jz, 0");
    assert_eq!(line_of(&[0x7C, 0x00]), "jl/jnge, 0");
    assert_eq!(line_of(&[0x7E, 0x00]), "jle/jng, 0");
    assert_eq!(line_of(&[0x72, 0x00]), "jb/jnae, 0");
    assert_eq!(line_of(&[0x76, 0x00]), "jbe/jna, 0");
    assert_eq!(line_of(&[0x7A, 0x00]), "jp/jpe, 0");
    assert_eq!(line_of(&[0x70, 0x00]), "jo, 0");
    assert_eq!(line_of(&[0x78, 0x00]), "js, 0");
    assert_eq!(line_of(&[0x75, 0x00]), "jne/jnz, 0");
    assert_eq!(line_of(&[0x7D, 0x00]), "jnl/jge, 0");
    assert_eq!(line_of(&[0x7F, 0x00]), "jnle/jg, 0");
    assert_eq!(line_of(&[0x73, 0x00]), "jnb/jae, 0");
    assert_eq!(line_of(&[0x77, 0x00]), "jnbe/ja, 0");
    assert_eq!(line_of(&[0x7B, 0x00]), "jnp/jpo, 0");
    assert_eq!(line_of(&[0x71, 0x00]), "jno, 0");
    assert_eq!(line_of(&[0x79, 0x00]), "jns, 0");
}

#[test]
fn renders_every_loop_mnemonic() {
    assert_eq!(line_of(&[0xE2, 0xFC]), "loop, -4");
    assert_eq!(line_of(&[0xE1, 0x02]), "loopz/loope, 2");
    assert_eq!(line_of(&[0xE0, 0x7F]), "loopnz/loopne, 127");
    assert_eq!(line_of(&[0xE3, 0x80]), "jcxz, -128");
}

#[test]
fn disassemble_renders_one_line_per_instruction_in_order() {
    let buf = [0x89, 0xC1, 0xB9, 0xE8, 0x03, 0x75, 0xFE];
    let lines = disassemble(&buf).unwrap();
    assert_eq!(lines, vec!["mov cx, ax", "mov cx, 1000", "jne/jnz, -2"]);
}

#[test]
fn disassemble_passes_errors_through() {
    assert_eq!(
        disassemble(&[0xF4]),
        Err(DecodeError::UnclassifiedOpcode { byte: 0xF4, offset: 0 })
    );
    assert_eq!(
        disassemble(&[0x89, 0x84, 0x01]),
        Err(DecodeError::TruncatedInstruction { offset: 0 })
    );
    assert_eq!(
        disassemble(&[0x81, 0xC8, 0x01, 0x00]),
        Err(DecodeError::InvalidSubOperation { code: 1, offset: 0 })
    );
}

#[test]
fn signed_decimal_covers_the_extremes() {
    assert_eq!(signed_decimal_string(0), "0");
    assert_eq!(signed_decimal_string(-1), "-1");
    assert_eq!(signed_decimal_string(32767), "32767");
    assert_eq!(signed_decimal_string(-32768), "-32768");
}

#[test]
fn decimal_digits_have_no_leading_zeros() {
    assert_eq!(decimal_digits_string(0), "0");
    assert_eq!(decimal_digits_string(10), "10");
    assert_eq!(decimal_digits_string(1000), "1000");
    assert_eq!(decimal_digits_string(65535), "65535");
}

#[test]
fn header_names_the_source_and_declares_the_context() {
    let (comment, directive) = header_lines("listing.bin");
    assert_eq!(comment, "; listing.bin:");
    assert_eq!(directive, "bits 16 1001011100010");
}

#[test]
fn config_requires_an_input_path() {
    let args = vec![String::from("disasm")];
    assert_eq!(Config::build(&args).err(), Some("not enough parameters"));
}

#[test]
fn config_takes_the_first_argument_as_path() {
    let args = vec![String::from("disasm"), String::from("listing.bin")];
    let config = Config::build(&args).unwrap();
    assert_eq!(config.path, "listing.bin");
}
