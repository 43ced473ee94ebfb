use sim8086::listing::disassemble;

fn one_line(bytes: &[u8]) -> String {
    let lines = disassemble(bytes).expect("decodes");
    assert_eq!(lines.len(), 2);
    assert_eq!(lines[0], "bits 16");
    lines[1].clone()
}

#[test]
fn mov_register_to_register_wide() {
    assert_eq!(one_line(&[0x89, 0xD9]), "mov cx, bx");
}

#[test]
fn mov_register_to_register_byte() {
    assert_eq!(one_line(&[0x88, 0xE5]), "mov ch, ah");
}

#[test]
fn mov_from_bp_with_zero_byte_displacement() {
    assert_eq!(one_line(&[0x8B, 0x5E, 0x00]), "mov bx, [bp]");
}

#[test]
fn bp_with_mod_one_is_indirect_not_direct() {
    assert_eq!(one_line(&[0x8B, 0x56, 0x00]), "mov dx, [bp]");
}

#[test]
fn mov_byte_immediate_to_memory() {
    assert_eq!(one_line(&[0xC6, 0x03, 0x07]), "mov byte [bp + di], 7");
}

#[test]
fn mov_word_immediate_to_memory_with_wide_displacement() {
    assert_eq!(one_line(&[0xC7, 0x85, 0x85, 0x03, 0x5B, 0x01]), "mov word [di + 901], 347");
}

#[test]
fn conditional_jump() {
    assert_eq!(one_line(&[0x75, 0x02]), "jne $+2+2");
}

#[test]
fn alu_sign_extended_immediate_to_register() {
    assert_eq!(one_line(&[0x83, 0xC6, 0x02]), "add si, 2");
}

#[test]
fn cmp_byte_immediate_to_direct_address() {
    assert_eq!(one_line(&[0x80, 0x3E, 0x62, 0x0C, 0x00]), "cmp byte [3170], 0");
}

#[test]
fn loop_with_negative_displacement() {
    assert_eq!(one_line(&[0xE2, 0xFC]), "loop $+2+-4");
}
