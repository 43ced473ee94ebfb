use sim8086::cursor::Cursor;
use sim8086::decode::{decode_effective_address, decode_instruction, ErrorKind};
use sim8086::form::{classify, Form};
use sim8086::instruction::{Instruction, Operand};
use sim8086::listing::{disassemble, DecodeError};
use sim8086::names::{Base, Mnemonic, Register};
use sim8086::text::render;

fn lines(bytes: &[u8]) -> Vec<String> {
    disassemble(bytes).expect("decodes")
}

fn one_line(bytes: &[u8]) -> String {
    let all = lines(bytes);
    assert_eq!(all.len(), 2);
    all[1].clone()
}

fn error_of(bytes: &[u8]) -> DecodeError {
    match disassemble(bytes) {
        Ok(l) => panic!("decoded {:?}", l),
        Err(e) => e,
    }
}

#[test]
fn empty_input_gives_only_the_directive() {
    assert_eq!(lines(&[]), vec!["bits 16".to_string()]);
}

#[test]
fn several_instructions_give_one_line_each_in_order() {
    let bytes = [0x89, 0xD9, 0x75, 0x02, 0xC6, 0x03, 0x07, 0x9F];
    assert_eq!(
        lines(&bytes),
        vec!["bits 16", "mov cx, bx", "jne $+2+2", "mov byte [bp + di], 7", "lahf"]
    );
}

#[test]
fn positive_negative_and_zero_displacements() {
    assert_eq!(one_line(&[0x8B, 0x41, 0x05]), "mov ax, [bx + di + 5]");
    assert_eq!(one_line(&[0x8B, 0x41, 0xDB]), "mov ax, [bx + di - 37]");
    assert_eq!(one_line(&[0x8B, 0x01]), "mov ax, [bx + di]");
    assert_eq!(one_line(&[0x89, 0x8C, 0xD4, 0xFE]), "mov [si - 300], cx");
    assert_eq!(one_line(&[0x8B, 0x80, 0x00, 0x00]), "mov ax, [bx + si]");
}

#[test]
fn high_bit_bytes_are_negative() {
    assert_eq!(one_line(&[0x8B, 0x46, 0x80]), "mov ax, [bp - 128]");
    assert_eq!(one_line(&[0x8B, 0x46, 0xFF]), "mov ax, [bp - 1]");
    assert_eq!(one_line(&[0x83, 0xC6, 0xFF]), "add si, -1");
    assert_eq!(one_line(&[0x83, 0xEB, 0x80]), "sub bx, -128");
    assert_eq!(one_line(&[0xB1, 0xF4]), "mov cl, -12");
}

#[test]
fn size_tag_only_before_memory_destinations() {
    assert_eq!(one_line(&[0xC7, 0x06, 0x10, 0x00, 0x2C, 0x01]), "mov word [16], 300");
    assert_eq!(one_line(&[0x80, 0x07, 0x22]), "add byte [bx], 34");
    assert_eq!(one_line(&[0x81, 0x07, 0x22, 0x01]), "add word [bx], 290");
    assert_eq!(one_line(&[0x81, 0xC1, 0x22, 0x01]), "add cx, 290");
    assert_eq!(one_line(&[0xC6, 0xC0, 0x05]), "mov al, 5");
    assert_eq!(one_line(&[0xF6, 0x07, 0x09]), "test byte [bx], 9");
}

#[test]
fn direction_bit_swaps_operands() {
    assert_eq!(one_line(&[0x01, 0x18]), "add [bx + si], bx");
    assert_eq!(one_line(&[0x03, 0x18]), "add bx, [bx + si]");
    assert_eq!(one_line(&[0x88, 0x6E, 0x02]), "mov [bp + 2], ch");
    assert_eq!(one_line(&[0x8A, 0x6E, 0x02]), "mov ch, [bp + 2]");
}

#[test]
fn four_bit_prefix_wins() {
    for op in 0xB0u8..=0xBF {
        assert_eq!(classify(op), Some(Form::MovImmReg));
    }
    assert_eq!(one_line(&[0xBA, 0x6C, 0x0F]), "mov dx, 3948");
    assert_eq!(one_line(&[0xB6, 0x03]), "mov dh, 3");
}

#[test]
fn alu_immediate_widths() {
    assert_eq!(one_line(&[0x04, 0x09]), "add al, 9");
    assert_eq!(one_line(&[0x05, 0xE8, 0x03]), "add ax, 1000");
    assert_eq!(one_line(&[0x3C, 0xE2]), "cmp al, -30");
    assert_eq!(one_line(&[0x2D, 0xFF, 0xFF]), "sub ax, -1");
    assert_eq!(one_line(&[0x82, 0xC1, 0x05]), "add cl, 5");
    assert_eq!(one_line(&[0x81, 0x3E, 0xE2, 0x12, 0x1D, 0x00]), "cmp word [4834], 29");
}

#[test]
fn every_alu_operation() {
    let names = ["add", "or", "adc", "sbb", "and", "sub", "xor", "cmp"];
    for (i, name) in names.iter().enumerate() {
        let op = (i as u8) << 3;
        assert_eq!(one_line(&[op | 0x01, 0xD8]), format!("{} ax, bx", name));
    }
}

#[test]
fn accumulator_moves() {
    assert_eq!(one_line(&[0xA1, 0xFB, 0x09]), "mov ax, [2555]");
    assert_eq!(one_line(&[0xA0, 0x10, 0x00]), "mov al, [16]");
    assert_eq!(one_line(&[0xA3, 0xFA, 0x09]), "mov [2554], ax");
    assert_eq!(one_line(&[0xA2, 0x0F, 0x00]), "mov [15], al");
}

#[test]
fn push_pop_inc_dec_and_segments() {
    assert_eq!(one_line(&[0x51]), "push cx");
    assert_eq!(one_line(&[0x5D]), "pop bp");
    assert_eq!(one_line(&[0x40]), "inc ax");
    assert_eq!(one_line(&[0x4F]), "dec di");
    assert_eq!(one_line(&[0x06]), "push es");
    assert_eq!(one_line(&[0x0E]), "push cs");
    assert_eq!(one_line(&[0x17]), "pop ss");
    assert_eq!(one_line(&[0x1F]), "pop ds");
    assert_eq!(one_line(&[0x8F, 0x02]), "pop word [bp + si]");
    assert_eq!(one_line(&[0xFF, 0x32]), "push word [bp + si]");
    assert_eq!(one_line(&[0xFF, 0xF1]), "push cx");
}

#[test]
fn exchanges_and_tests() {
    assert_eq!(one_line(&[0x91]), "xchg ax, cx");
    assert_eq!(one_line(&[0x90]), "xchg ax, ax");
    assert_eq!(one_line(&[0x87, 0x86, 0x18, 0xFC]), "xchg ax, [bp - 1000]");
    assert_eq!(one_line(&[0x86, 0xE0]), "xchg ah, al");
    assert_eq!(one_line(&[0x85, 0xCB]), "test bx, cx");
    assert_eq!(one_line(&[0xA8, 0x14]), "test al, 20");
    assert_eq!(one_line(&[0xA9, 0x00, 0x01]), "test ax, 256");
}

#[test]
fn ports() {
    assert_eq!(one_line(&[0xE4, 0xC8]), "in al, 200");
    assert_eq!(one_line(&[0xE5, 0x2C]), "in ax, 44");
    assert_eq!(one_line(&[0xE6, 0x2C]), "out 44, al");
    assert_eq!(one_line(&[0xE7, 0xFF]), "out 255, ax");
    assert_eq!(one_line(&[0xEC]), "in al, dx");
    assert_eq!(one_line(&[0xED]), "in ax, dx");
    assert_eq!(one_line(&[0xEE]), "out dx, al");
    assert_eq!(one_line(&[0xEF]), "out dx, ax");
}

#[test]
fn load_pointers() {
    assert_eq!(one_line(&[0x8D, 0x81, 0x8C, 0x00]), "lea ax, [bx + di + 140]");
    assert_eq!(one_line(&[0xC5, 0x81, 0x8C, 0x00]), "lds ax, [bx + di + 140]");
    assert_eq!(one_line(&[0xC4, 0x1E, 0x05, 0x00]), "les bx, [5]");
}

#[test]
fn unary_groups() {
    assert_eq!(one_line(&[0xF7, 0xD0]), "not ax");
    assert_eq!(one_line(&[0xF6, 0x1E, 0x0A, 0x00]), "neg byte [10]");
    assert_eq!(one_line(&[0xF7, 0xE1]), "mul cx");
    assert_eq!(one_line(&[0xF6, 0xE9]), "imul cl");
    assert_eq!(one_line(&[0xF7, 0x34]), "div word [si]");
    assert_eq!(one_line(&[0xF6, 0x3F]), "idiv byte [bx]");
    assert_eq!(one_line(&[0xF7, 0xC3, 0x34, 0x12]), "test bx, 4660");
    assert_eq!(one_line(&[0xFE, 0xC0]), "inc al");
    assert_eq!(one_line(&[0xFF, 0x4E, 0x02]), "dec word [bp + 2]");
    assert_eq!(one_line(&[0xFF, 0xD3]), "call bx");
    assert_eq!(one_line(&[0xFF, 0x27]), "jmp word [bx]");
}

#[test]
fn jumps_and_loops() {
    assert_eq!(one_line(&[0x74, 0xFE]), "je $+2+-2");
    assert_eq!(one_line(&[0x70, 0x00]), "jo $+2+0");
    assert_eq!(one_line(&[0x7F, 0x7F]), "jg $+2+127");
    assert_eq!(one_line(&[0x7C, 0x80]), "jl $+2+-128");
    assert_eq!(one_line(&[0xE0, 0x05]), "loopnz $+2+5");
    assert_eq!(one_line(&[0xE1, 0x05]), "loopz $+2+5");
    assert_eq!(one_line(&[0xE3, 0x05]), "jcxz $+2+5");
}

#[test]
fn single_byte_instructions() {
    let cases: [(u8, &str); 9] = [
        (0xD7, "xlat"),
        (0x9F, "lahf"),
        (0x9E, "sahf"),
        (0x9C, "pushf"),
        (0x9D, "popf"),
        (0x37, "aaa"),
        (0x27, "daa"),
        (0x3F, "aas"),
        (0x2F, "das"),
    ];
    for (op, name) in cases.iter() {
        assert_eq!(one_line(&[*op]), *name);
    }
}

#[test]
fn aam_consumes_its_divisor() {
    assert_eq!(lines(&[0xD4, 0x0A, 0x9F]), vec!["bits 16", "aam", "lahf"]);
}

#[test]
fn short_read_is_reported_at_the_instruction() {
    let e = error_of(&[0x89, 0xD9, 0x8B]);
    assert_eq!(e, DecodeError { kind: ErrorKind::ShortRead, offset: 2 });
    let e = error_of(&[0xC7, 0x85, 0x85, 0x03, 0x5B]);
    assert_eq!(e, DecodeError { kind: ErrorKind::ShortRead, offset: 0 });
    let e = error_of(&[0x75]);
    assert_eq!(e.kind, ErrorKind::ShortRead);
    let e = error_of(&[0xD4]);
    assert_eq!(e.kind, ErrorKind::ShortRead);
}

#[test]
fn unknown_opcode_is_reported() {
    let e = error_of(&[0x9F, 0x26]);
    assert_eq!(e, DecodeError { kind: ErrorKind::UnknownOpcode, offset: 1 });
    assert_eq!(error_of(&[0xF4]).kind, ErrorKind::UnknownOpcode);
    assert_eq!(error_of(&[0x26, 0x8B, 0x07]).kind, ErrorKind::UnknownOpcode);
}

#[test]
fn reserved_group_slot_is_reported() {
    let e = error_of(&[0xFF, 0xF8]);
    assert_eq!(e, DecodeError { kind: ErrorKind::ReservedEncoding, offset: 0 });
}

#[test]
fn register_operand_of_load_pointer_is_refused() {
    let e = error_of(&[0x8D, 0xC0]);
    assert_eq!(e, DecodeError { kind: ErrorKind::UnsupportedAddressing, offset: 0 });
}

#[test]
fn cursor_reads() {
    let bytes = [0x34u8, 0x12, 0xFE, 0xFF, 0x80];
    let mut cur = Cursor::new(&bytes);
    assert_eq!(cur.peek(), Some(0x34));
    assert_eq!(cur.take_u16_le(), Some(0x1234));
    assert_eq!(cur.take_i16_le(), Some(-2));
    assert!(!cur.at_end());
    assert_eq!(cur.take_u16_le(), None);
    assert_eq!(cur.take_i8(), Some(-128));
    assert!(cur.at_end());
    assert_eq!(cur.take(), None);
    assert_eq!(cur.peek(), None);
}

#[test]
fn effective_address_modes() {
    let bytes = [0x06u8, 0x62, 0x0C];
    let mut cur = Cursor::new(&bytes);
    assert_eq!(decode_effective_address(&mut cur, true), Some((0, Operand::Direct(3170))));
    assert_eq!(cur.pos, 3);
    let bytes = [0x5Eu8, 0x00];
    let mut cur = Cursor::new(&bytes);
    assert_eq!(decode_effective_address(&mut cur, true), Some((3, Operand::Indirect(Base::Bp, 0))));
    let bytes = [0xE5u8];
    let mut cur = Cursor::new(&bytes);
    assert_eq!(decode_effective_address(&mut cur, false), Some((4, Operand::Reg(Register::Ch))));
    let bytes = [0x85u8, 0x85];
    let mut cur = Cursor::new(&bytes);
    assert_eq!(decode_effective_address(&mut cur, true), None);
}

#[test]
fn decoded_instruction_and_its_text() {
    let bytes = [0xC7u8, 0x85, 0x85, 0x03, 0x5B, 0x01];
    let mut cur = Cursor::new(&bytes);
    let ins = decode_instruction(&mut cur).expect("decodes");
    assert_eq!(
        ins,
        Instruction::Immediate {
            op: Mnemonic::Mov,
            wide: true,
            dst: Operand::Indirect(Base::Di, 901),
            value: 347,
        }
    );
    assert_eq!(cur.pos, 6);
    assert_eq!(render(&ins), "mov word [di + 901], 347");
    assert_eq!(render(&Instruction::Bare { op: Mnemonic::Xlat }), "xlat");
    assert_eq!(
        render(&Instruction::Immediate {
            op: Mnemonic::Mov,
            wide: true,
            dst: Operand::Reg(Register::Ax),
            value: -32768,
        }),
        "mov ax, -32768"
    );
    assert_eq!(
        render(&Instruction::Pair {
            op: Mnemonic::Mov,
            dst: Operand::Direct(65535),
            src: Operand::Reg(Register::Ax),
        }),
        "mov [65535], ax"
    );
}
