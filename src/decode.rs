//! Decoding of one instruction: the model of the encoding, and the decoder
//! proved to follow it.
use vstd::prelude::*;
use crate::cursor::{le_i16, le_u16, sign_extend8, Cursor};
use crate::form::{classify, form_of, Form};
use crate::instruction::{accumulator, accumulator_of, Instruction, Operand};
use crate::names::{
    alu_mnemonic, cond_jump_mnemonic, general_register, group1_mnemonic, group2_mnemonic,
    loop_mnemonic, memory_base, segment_register, Base, Mnemonic, Register,
};

verus! {

/// Why an instruction could not be decoded.
#[derive(Clone, Copy, Debug, PartialEq, Eq, Structural)]
pub enum ErrorKind {
    /// The input ended inside the instruction.
    ShortRead,
    /// No encoding family matches the opcode byte.
    UnknownOpcode,
    /// A group opcode's `reg` field selects a reserved slot.
    ReservedEncoding,
    /// The operand's addressing mode is not allowed for the instruction.
    UnsupportedAddressing,
}

/// What the model decodes: an instruction and the position after it, or why
/// there is none.
pub type Decoded = Result<(Instruction, int), ErrorKind>;

/// The `mod` field of a ModR/M byte (bits 7-6).
pub open spec fn mod_field(m: u8) -> u8 {
    m >> 6
}

/// The `reg` field of a ModR/M byte (bits 5-3).
pub open spec fn reg_field(m: u8) -> u8 {
    (m >> 3) & 7
}

/// The `r/m` field of a ModR/M byte (bits 2-0).
pub open spec fn rm_field(m: u8) -> u8 {
    m & 7
}

/// The `w` bit of an opcode: 16-bit operands when set.
pub open spec fn w_bit(op: u8) -> bool {
    op & 1 == 1
}

/// The `d` bit of an opcode: the `reg` field names the destination when set.
pub open spec fn d_bit(op: u8) -> bool {
    op & 2 == 2
}

/// The byte at `at`, if there is one.
pub open spec fn read_u8(bytes: Seq<u8>, at: int) -> Option<u8> {
    if 0 <= at < bytes.len() {
        Some(bytes[at])
    } else {
        None
    }
}

/// The byte at `at` read as signed and widened.
pub open spec fn read_i8(bytes: Seq<u8>, at: int) -> Option<i16> {
    if 0 <= at < bytes.len() {
        Some(sign_extend8(bytes[at]))
    } else {
        None
    }
}

/// The unsigned little-endian number in the two bytes at `at`.
pub open spec fn read_u16(bytes: Seq<u8>, at: int) -> Option<u16> {
    if 0 <= at && at + 2 <= bytes.len() {
        Some(le_u16(bytes[at], bytes[at + 1]))
    } else {
        None
    }
}

/// The signed little-endian number in the two bytes at `at`.
pub open spec fn read_i16(bytes: Seq<u8>, at: int) -> Option<i16> {
    if 0 <= at && at + 2 <= bytes.len() {
        Some(le_i16(bytes[at], bytes[at + 1]))
    } else {
        None
    }
}

/// An immediate of the given width at `at`, and the position after it.
pub open spec fn read_immediate(bytes: Seq<u8>, at: int, wide: bool) -> Option<(i16, int)> {
    if wide {
        match read_i16(bytes, at) {
            Some(v) => Some((v, at + 2)),
            None => None,
        }
    } else {
        match read_i8(bytes, at) {
            Some(v) => Some((v, at + 1)),
            None => None,
        }
    }
}

/// The ModR/M byte at `at` and the displacement after it: its `reg` field, the
/// operand its `mod` and `r/m` fields select, and the position after them.
pub open spec fn effective_address(bytes: Seq<u8>, at: int, wide: bool) -> Option<(u8, Operand, int)> {
    match read_u8(bytes, at) {
        None => None,
        Some(m) => {
            let reg = reg_field(m);
            let rm = rm_field(m);
            if mod_field(m) == 3 {
                Some((reg, Operand::Reg(general_register(wide, rm)), at + 1))
            } else if mod_field(m) == 0 && rm == 6 {
                match read_u16(bytes, at + 1) {
                    Some(addr) => Some((reg, Operand::Direct(addr), at + 3)),
                    None => None,
                }
            } else if mod_field(m) == 0 {
                Some((reg, Operand::Indirect(memory_base(rm), 0), at + 1))
            } else if mod_field(m) == 1 {
                match read_i8(bytes, at + 1) {
                    Some(d) => Some((reg, Operand::Indirect(memory_base(rm), d), at + 2)),
                    None => None,
                }
            } else {
                match read_i16(bytes, at + 1) {
                    Some(d) => Some((reg, Operand::Indirect(memory_base(rm), d), at + 3)),
                    None => None,
                }
            }
        },
    }
}

/// The `s` bit of an immediate arithmetic opcode: an 8-bit immediate widened by sign when set.
pub open spec fn s_bit(op: u8) -> bool {
    op & 2 == 2
}

/// `mn dst, src` between the register that the `reg` field names and the operand
/// that the ModR/M byte selects; the `d` bit says which is the destination.
pub open spec fn reg_mem(mn: Mnemonic, op: u8, bytes: Seq<u8>, at: int) -> Decoded {
    match effective_address(bytes, at, w_bit(op)) {
        None => Err(ErrorKind::ShortRead),
        Some((reg, rm, end)) => {
            let r = Operand::Reg(general_register(w_bit(op), reg));
            if d_bit(op) {
                Ok((Instruction::Pair { op: mn, dst: r, src: rm }, end))
            } else {
                Ok((Instruction::Pair { op: mn, dst: rm, src: r }, end))
            }
        },
    }
}

/// `mn dst, value`: an immediate of the opcode's width into the operand that the ModR/M byte selects.
pub open spec fn imm_reg_mem(mn: Mnemonic, op: u8, bytes: Seq<u8>, at: int) -> Decoded {
    let wide = w_bit(op);
    match effective_address(bytes, at, wide) {
        None => Err(ErrorKind::ShortRead),
        Some((_reg, rm, end)) => match read_immediate(bytes, end, wide) {
            None => Err(ErrorKind::ShortRead),
            Some((v, e)) => Ok((Instruction::Immediate { op: mn, wide, dst: rm, value: v }, e)),
        },
    }
}

/// Arithmetic with an immediate into a register or memory operand: the `reg`
/// field picks the operation; the immediate has 16 bits only when `s = 0, w = 1`.
pub open spec fn alu_imm_reg_mem(op: u8, bytes: Seq<u8>, at: int) -> Decoded {
    let wide = w_bit(op);
    match effective_address(bytes, at, wide) {
        None => Err(ErrorKind::ShortRead),
        Some((reg, rm, end)) => match read_immediate(bytes, end, wide && !s_bit(op)) {
            None => Err(ErrorKind::ShortRead),
            Some((v, e)) => Ok(
                (Instruction::Immediate { op: alu_mnemonic(reg), wide, dst: rm, value: v }, e),
            ),
        },
    }
}

/// `mn acc, value`: an immediate of the opcode's width into the accumulator.
pub open spec fn imm_acc(mn: Mnemonic, op: u8, bytes: Seq<u8>, at: int) -> Decoded {
    let wide = w_bit(op);
    match read_immediate(bytes, at, wide) {
        None => Err(ErrorKind::ShortRead),
        Some((v, e)) => Ok(
            (Instruction::Immediate { op: mn, wide, dst: Operand::Reg(accumulator(wide)), value: v }, e),
        ),
    }
}

/// `mov reg, value` with the width in bit 3 and the register in bits 2-0.
pub open spec fn mov_imm_reg(op: u8, bytes: Seq<u8>, at: int) -> Decoded {
    let wide = (op >> 3) & 1 == 1;
    match read_immediate(bytes, at, wide) {
        None => Err(ErrorKind::ShortRead),
        Some((v, e)) => Ok(
            (
                Instruction::Immediate {
                    op: Mnemonic::Mov,
                    wide,
                    dst: Operand::Reg(general_register(wide, op & 7)),
                    value: v,
                },
                e,
            ),
        ),
    }
}

/// `mov` between the accumulator and memory at the absolute address that follows.
pub open spec fn mov_acc(op: u8, to_memory: bool, bytes: Seq<u8>, at: int) -> Decoded {
    match read_u16(bytes, at) {
        None => Err(ErrorKind::ShortRead),
        Some(addr) => {
            let acc = Operand::Reg(accumulator(w_bit(op)));
            if to_memory {
                Ok((Instruction::Pair { op: Mnemonic::Mov, dst: Operand::Direct(addr), src: acc }, at + 2))
            } else {
                Ok((Instruction::Pair { op: Mnemonic::Mov, dst: acc, src: Operand::Direct(addr) }, at + 2))
            }
        },
    }
}

/// The unary group of `F6`/`F7`: `test` takes an immediate; the others one operand.
pub open spec fn group1(op: u8, bytes: Seq<u8>, at: int) -> Decoded {
    let wide = w_bit(op);
    match effective_address(bytes, at, wide) {
        None => Err(ErrorKind::ShortRead),
        Some((reg, rm, end)) => if reg < 2 {
            match read_immediate(bytes, end, wide) {
                None => Err(ErrorKind::ShortRead),
                Some((v, e)) => Ok(
                    (Instruction::Immediate { op: Mnemonic::Test, wide, dst: rm, value: v }, e),
                ),
            }
        } else {
            Ok((Instruction::Single { op: group1_mnemonic(reg), wide, operand: rm }, end))
        },
    }
}

/// The unary group of `FE`/`FF`; its last slot is reserved.
pub open spec fn group2(op: u8, bytes: Seq<u8>, at: int) -> Decoded {
    let wide = w_bit(op);
    match effective_address(bytes, at, wide) {
        None => Err(ErrorKind::ShortRead),
        Some((reg, rm, end)) => match group2_mnemonic(reg) {
            None => Err(ErrorKind::ReservedEncoding),
            Some(mn) => Ok((Instruction::Single { op: mn, wide, operand: rm }, end)),
        },
    }
}

/// `mn reg, mem`: a 16-bit register loaded from a memory operand; a register operand is refused.
pub open spec fn load_pointer(mn: Mnemonic, bytes: Seq<u8>, at: int) -> Decoded {
    match effective_address(bytes, at, true) {
        None => Err(ErrorKind::ShortRead),
        Some((reg, rm, end)) => if rm is Reg {
            Err(ErrorKind::UnsupportedAddressing)
        } else {
            Ok((Instruction::Pair { op: mn, dst: Operand::Reg(general_register(true, reg)), src: rm }, end))
        },
    }
}

/// `pop` into the 16-bit operand that the ModR/M byte selects.
pub open spec fn pop_reg_mem(bytes: Seq<u8>, at: int) -> Decoded {
    match effective_address(bytes, at, true) {
        None => Err(ErrorKind::ShortRead),
        Some((_reg, rm, end)) => Ok(
            (Instruction::Single { op: Mnemonic::Pop, wide: true, operand: rm }, end),
        ),
    }
}

/// A short jump with the signed 8-bit displacement that follows the opcode.
pub open spec fn short_jump(mn: Mnemonic, bytes: Seq<u8>, at: int) -> Decoded {
    match read_i8(bytes, at) {
        None => Err(ErrorKind::ShortRead),
        Some(d) => Ok((Instruction::Jump { op: mn, disp: d }, at + 1)),
    }
}

/// A one-byte instruction on the 16-bit register in bits 2-0 of the opcode.
pub open spec fn register_instruction(mn: Mnemonic, op: u8) -> Instruction {
    Instruction::Single { op: mn, wide: true, operand: Operand::Reg(general_register(true, op & 7)) }
}

/// The instruction of family `f` with opcode `op`, whose remaining bytes start at `at`,
/// and the position after it.
pub open spec fn decode_form(f: Form, op: u8, bytes: Seq<u8>, at: int) -> Decoded {
    let wide = w_bit(op);
    match f {
        Form::AluRegMem => reg_mem(alu_mnemonic((op >> 3) & 7), op, bytes, at),
        Form::MovRegMem => reg_mem(Mnemonic::Mov, op, bytes, at),
        Form::TestRegMem => reg_mem(Mnemonic::Test, op, bytes, at),
        Form::XchgRegMem => reg_mem(Mnemonic::Xchg, op, bytes, at),
        Form::AluImmAcc => imm_acc(alu_mnemonic((op >> 3) & 7), op, bytes, at),
        Form::TestImmAcc => imm_acc(Mnemonic::Test, op, bytes, at),
        Form::SegPushPop => Ok(
            (
                Instruction::Single {
                    op: if wide { Mnemonic::Pop } else { Mnemonic::Push },
                    wide: true,
                    operand: Operand::Reg(segment_register((op >> 3) & 3)),
                },
                at,
            ),
        ),
        Form::IncReg => Ok((register_instruction(Mnemonic::Inc, op), at)),
        Form::DecReg => Ok((register_instruction(Mnemonic::Dec, op), at)),
        Form::PushReg => Ok((register_instruction(Mnemonic::Push, op), at)),
        Form::PopReg => Ok((register_instruction(Mnemonic::Pop, op), at)),
        Form::XchgAcc => Ok(
            (
                Instruction::Pair {
                    op: Mnemonic::Xchg,
                    dst: Operand::Reg(Register::Ax),
                    src: Operand::Reg(general_register(true, op & 7)),
                },
                at,
            ),
        ),
        Form::MovImmReg => mov_imm_reg(op, bytes, at),
        Form::AluImmRegMem => alu_imm_reg_mem(op, bytes, at),
        Form::MovImmRegMem => imm_reg_mem(Mnemonic::Mov, op, bytes, at),
        Form::MovMemAcc => mov_acc(op, false, bytes, at),
        Form::MovAccMem => mov_acc(op, true, bytes, at),
        Form::Group1 => group1(op, bytes, at),
        Form::Group2 => group2(op, bytes, at),
        Form::InImm => match read_u8(bytes, at) {
            None => Err(ErrorKind::ShortRead),
            Some(port) => Ok((Instruction::InPort { wide, port }, at + 1)),
        },
        Form::OutImm => match read_u8(bytes, at) {
            None => Err(ErrorKind::ShortRead),
            Some(port) => Ok((Instruction::OutPort { wide, port }, at + 1)),
        },
        Form::InDx => Ok(
            (
                Instruction::Pair {
                    op: Mnemonic::In,
                    dst: Operand::Reg(accumulator(wide)),
                    src: Operand::Reg(Register::Dx),
                },
                at,
            ),
        ),
        Form::OutDx => Ok(
            (
                Instruction::Pair {
                    op: Mnemonic::Out,
                    dst: Operand::Reg(Register::Dx),
                    src: Operand::Reg(accumulator(wide)),
                },
                at,
            ),
        ),
        Form::LoadPointer(mn) => load_pointer(mn, bytes, at),
        Form::PopRegMem => pop_reg_mem(bytes, at),
        Form::CondJump => short_jump(cond_jump_mnemonic(op & 15), bytes, at),
        Form::Loop => short_jump(loop_mnemonic(op & 3), bytes, at),
        Form::Standalone(mn) => Ok((Instruction::Bare { op: mn }, at)),
        Form::Aam => match read_u8(bytes, at) {
            None => Err(ErrorKind::ShortRead),
            Some(_divisor) => Ok((Instruction::Bare { op: Mnemonic::Aam }, at + 1)),
        },
    }
}

/// The instruction that starts at `pos`, and the position after it.
pub open spec fn decode_at(bytes: Seq<u8>, pos: int) -> Decoded {
    match read_u8(bytes, pos) {
        None => Err(ErrorKind::ShortRead),
        Some(op) => match form_of(op) {
            None => Err(ErrorKind::UnknownOpcode),
            Some(f) => decode_form(f, op, bytes, pos + 1),
        },
    }
}

/// Whether a decoder's result `r`, with its cursor left at `end`, is the
/// `expected` instruction and end position, or the `expected` error.
pub open spec fn follows(r: Result<Instruction, ErrorKind>, end: int, expected: Decoded) -> bool {
    match expected {
        Ok((ins, e)) => r == Ok::<Instruction, ErrorKind>(ins) && end == e,
        Err(k) => r == Err::<Instruction, ErrorKind>(k),
    }
}

/// Reads a ModR/M byte and the displacement after it: the `reg` field, and the
/// operand that the `mod` and `r/m` fields select.
pub fn decode_effective_address(cur: &mut Cursor, wide: bool) -> (r: Option<(u8, Operand)>)
    ensures
        final(cur).bytes == old(cur).bytes,
        match effective_address(old(cur).bytes@, old(cur).pos as int, wide) {
            Some((reg, op, end)) => r == Some((reg, op)) && final(cur).pos == end,
            None => r is None,
        },
{
    let m = match cur.take() {
        Some(m) => m,
        None => return None,
    };
    let reg = (m >> 3) & 7;
    let rm = m & 7;
    let md = m >> 6;
    if md == 3 {
        Some((reg, Operand::Reg(Register::general(wide, rm))))
    } else if md == 0 && rm == 6 {
        match cur.take_u16_le() {
            Some(addr) => Some((reg, Operand::Direct(addr))),
            None => None,
        }
    } else if md == 0 {
        Some((reg, Operand::Indirect(Base::from_field(rm), 0)))
    } else if md == 1 {
        match cur.take_i8() {
            Some(d) => Some((reg, Operand::Indirect(Base::from_field(rm), d))),
            None => None,
        }
    } else {
        match cur.take_i16_le() {
            Some(d) => Some((reg, Operand::Indirect(Base::from_field(rm), d))),
            None => None,
        }
    }
}

/// Reads a signed immediate: two bytes when `wide`, else one byte widened by sign.
pub fn take_immediate(cur: &mut Cursor, wide: bool) -> (r: Option<i16>)
    ensures
        final(cur).bytes == old(cur).bytes,
        match read_immediate(old(cur).bytes@, old(cur).pos as int, wide) {
            Some((v, end)) => r == Some(v) && final(cur).pos == end,
            None => r is None,
        },
{
    if wide {
        cur.take_i16_le()
    } else {
        cur.take_i8()
    }
}

/// Decodes `mn dst, src` between a register and a register or memory operand.
fn decode_reg_mem(cur: &mut Cursor, mn: Mnemonic, op: u8) -> (r: Result<Instruction, ErrorKind>)
    ensures
        final(cur).bytes == old(cur).bytes,
        follows(r, final(cur).pos as int, reg_mem(mn, op, old(cur).bytes@, old(cur).pos as int)),
{
    let wide = op & 1 == 1;
    match decode_effective_address(cur, wide) {
        None => Err(ErrorKind::ShortRead),
        Some((reg, rm)) => {
            let r = Operand::Reg(Register::general(wide, reg));
            if op & 2 == 2 {
                Ok(Instruction::Pair { op: mn, dst: r, src: rm })
            } else {
                Ok(Instruction::Pair { op: mn, dst: rm, src: r })
            }
        },
    }
}

/// Decodes `mn dst, value` into a register or memory operand.
fn decode_imm_reg_mem(cur: &mut Cursor, mn: Mnemonic, op: u8) -> (r: Result<Instruction, ErrorKind>)
    ensures
        final(cur).bytes == old(cur).bytes,
        follows(r, final(cur).pos as int, imm_reg_mem(mn, op, old(cur).bytes@, old(cur).pos as int)),
{
    let wide = op & 1 == 1;
    match decode_effective_address(cur, wide) {
        None => Err(ErrorKind::ShortRead),
        Some((_reg, rm)) => match take_immediate(cur, wide) {
            None => Err(ErrorKind::ShortRead),
            Some(v) => Ok(Instruction::Immediate { op: mn, wide, dst: rm, value: v }),
        },
    }
}

/// Decodes arithmetic with an immediate into a register or memory operand.
fn decode_alu_imm_reg_mem(cur: &mut Cursor, op: u8) -> (r: Result<Instruction, ErrorKind>)
    ensures
        final(cur).bytes == old(cur).bytes,
        follows(r, final(cur).pos as int, alu_imm_reg_mem(op, old(cur).bytes@, old(cur).pos as int)),
{
    let wide = op & 1 == 1;
    let sign_extended = op & 2 == 2;
    match decode_effective_address(cur, wide) {
        None => Err(ErrorKind::ShortRead),
        Some((reg, rm)) => match take_immediate(cur, wide && !sign_extended) {
            None => Err(ErrorKind::ShortRead),
            Some(v) => Ok(Instruction::Immediate { op: Mnemonic::alu(reg), wide, dst: rm, value: v }),
        },
    }
}

/// Decodes `mn acc, value`.
fn decode_imm_acc(cur: &mut Cursor, mn: Mnemonic, op: u8) -> (r: Result<Instruction, ErrorKind>)
    ensures
        final(cur).bytes == old(cur).bytes,
        follows(r, final(cur).pos as int, imm_acc(mn, op, old(cur).bytes@, old(cur).pos as int)),
{
    let wide = op & 1 == 1;
    match take_immediate(cur, wide) {
        None => Err(ErrorKind::ShortRead),
        Some(v) => Ok(
            Instruction::Immediate { op: mn, wide, dst: Operand::Reg(accumulator_of(wide)), value: v },
        ),
    }
}

/// Decodes `mov reg, value` with the register in the opcode.
fn decode_mov_imm_reg(cur: &mut Cursor, op: u8) -> (r: Result<Instruction, ErrorKind>)
    ensures
        final(cur).bytes == old(cur).bytes,
        follows(r, final(cur).pos as int, mov_imm_reg(op, old(cur).bytes@, old(cur).pos as int)),
{
    let wide = (op >> 3) & 1 == 1;
    match take_immediate(cur, wide) {
        None => Err(ErrorKind::ShortRead),
        Some(v) => Ok(
            Instruction::Immediate {
                op: Mnemonic::Mov,
                wide,
                dst: Operand::Reg(Register::general(wide, op & 7)),
                value: v,
            },
        ),
    }
}

/// Decodes `mov` between the accumulator and memory at an absolute address.
fn decode_mov_acc(cur: &mut Cursor, op: u8, to_memory: bool) -> (r: Result<Instruction, ErrorKind>)
    ensures
        final(cur).bytes == old(cur).bytes,
        follows(r, final(cur).pos as int, mov_acc(op, to_memory, old(cur).bytes@, old(cur).pos as int)),
{
    match cur.take_u16_le() {
        None => Err(ErrorKind::ShortRead),
        Some(addr) => {
            let acc = Operand::Reg(accumulator_of(op & 1 == 1));
            if to_memory {
                Ok(Instruction::Pair { op: Mnemonic::Mov, dst: Operand::Direct(addr), src: acc })
            } else {
                Ok(Instruction::Pair { op: Mnemonic::Mov, dst: acc, src: Operand::Direct(addr) })
            }
        },
    }
}

/// Decodes the unary group of `F6`/`F7`.
fn decode_group1(cur: &mut Cursor, op: u8) -> (r: Result<Instruction, ErrorKind>)
    ensures
        final(cur).bytes == old(cur).bytes,
        follows(r, final(cur).pos as int, group1(op, old(cur).bytes@, old(cur).pos as int)),
{
    let wide = op & 1 == 1;
    match decode_effective_address(cur, wide) {
        None => Err(ErrorKind::ShortRead),
        Some((reg, rm)) => {
            if reg < 2 {
                match take_immediate(cur, wide) {
                    None => Err(ErrorKind::ShortRead),
                    Some(v) => Ok(Instruction::Immediate { op: Mnemonic::Test, wide, dst: rm, value: v }),
                }
            } else {
                Ok(Instruction::Single { op: Mnemonic::group1(reg), wide, operand: rm })
            }
        },
    }
}

/// Decodes the unary group of `FE`/`FF`.
fn decode_group2(cur: &mut Cursor, op: u8) -> (r: Result<Instruction, ErrorKind>)
    ensures
        final(cur).bytes == old(cur).bytes,
        follows(r, final(cur).pos as int, group2(op, old(cur).bytes@, old(cur).pos as int)),
{
    let wide = op & 1 == 1;
    match decode_effective_address(cur, wide) {
        None => Err(ErrorKind::ShortRead),
        Some((reg, rm)) => match Mnemonic::group2(reg) {
            None => Err(ErrorKind::ReservedEncoding),
            Some(mn) => Ok(Instruction::Single { op: mn, wide, operand: rm }),
        },
    }
}

/// Decodes `lea`, `lds` or `les`.
fn decode_load_pointer(cur: &mut Cursor, mn: Mnemonic) -> (r: Result<Instruction, ErrorKind>)
    ensures
        final(cur).bytes == old(cur).bytes,
        follows(r, final(cur).pos as int, load_pointer(mn, old(cur).bytes@, old(cur).pos as int)),
{
    match decode_effective_address(cur, true) {
        None => Err(ErrorKind::ShortRead),
        Some((reg, rm)) => match rm {
            Operand::Reg(_) => Err(ErrorKind::UnsupportedAddressing),
            _ => Ok(Instruction::Pair { op: mn, dst: Operand::Reg(Register::general(true, reg)), src: rm }),
        },
    }
}

/// Decodes `pop` into a register or memory operand.
fn decode_pop_reg_mem(cur: &mut Cursor) -> (r: Result<Instruction, ErrorKind>)
    ensures
        final(cur).bytes == old(cur).bytes,
        follows(r, final(cur).pos as int, pop_reg_mem(old(cur).bytes@, old(cur).pos as int)),
{
    match decode_effective_address(cur, true) {
        None => Err(ErrorKind::ShortRead),
        Some((_reg, rm)) => Ok(Instruction::Single { op: Mnemonic::Pop, wide: true, operand: rm }),
    }
}

/// Decodes a short jump's displacement.
fn decode_short_jump(cur: &mut Cursor, mn: Mnemonic) -> (r: Result<Instruction, ErrorKind>)
    ensures
        final(cur).bytes == old(cur).bytes,
        follows(r, final(cur).pos as int, short_jump(mn, old(cur).bytes@, old(cur).pos as int)),
{
    match cur.take_i8() {
        None => Err(ErrorKind::ShortRead),
        Some(d) => Ok(Instruction::Jump { op: mn, disp: d }),
    }
}

/// A one-byte instruction on the 16-bit register in bits 2-0 of the opcode.
fn register_instruction_of(mn: Mnemonic, op: u8) -> (r: Instruction)
    ensures
        r == register_instruction(mn, op),
{
    Instruction::Single { op: mn, wide: true, operand: Operand::Reg(Register::general(true, op & 7)) }
}

/// Decodes the rest of an instruction of family `f` whose opcode `op` has been read.
fn decode_form_at(cur: &mut Cursor, f: Form, op: u8) -> (r: Result<Instruction, ErrorKind>)
    ensures
        final(cur).bytes == old(cur).bytes,
        follows(r, final(cur).pos as int, decode_form(f, op, old(cur).bytes@, old(cur).pos as int)),
{
    let wide = op & 1 == 1;
    match f {
        Form::AluRegMem => decode_reg_mem(cur, Mnemonic::alu((op >> 3) & 7), op),
        Form::MovRegMem => decode_reg_mem(cur, Mnemonic::Mov, op),
        Form::TestRegMem => decode_reg_mem(cur, Mnemonic::Test, op),
        Form::XchgRegMem => decode_reg_mem(cur, Mnemonic::Xchg, op),
        Form::AluImmAcc => decode_imm_acc(cur, Mnemonic::alu((op >> 3) & 7), op),
        Form::TestImmAcc => decode_imm_acc(cur, Mnemonic::Test, op),
        Form::SegPushPop => Ok(
            Instruction::Single {
                op: if wide { Mnemonic::Pop } else { Mnemonic::Push },
                wide: true,
                operand: Operand::Reg(Register::segment((op >> 3) & 3)),
            },
        ),
        Form::IncReg => Ok(register_instruction_of(Mnemonic::Inc, op)),
        Form::DecReg => Ok(register_instruction_of(Mnemonic::Dec, op)),
        Form::PushReg => Ok(register_instruction_of(Mnemonic::Push, op)),
        Form::PopReg => Ok(register_instruction_of(Mnemonic::Pop, op)),
        Form::XchgAcc => Ok(
            Instruction::Pair {
                op: Mnemonic::Xchg,
                dst: Operand::Reg(Register::Ax),
                src: Operand::Reg(Register::general(true, op & 7)),
            },
        ),
        Form::MovImmReg => decode_mov_imm_reg(cur, op),
        Form::AluImmRegMem => decode_alu_imm_reg_mem(cur, op),
        Form::MovImmRegMem => decode_imm_reg_mem(cur, Mnemonic::Mov, op),
        Form::MovMemAcc => decode_mov_acc(cur, op, false),
        Form::MovAccMem => decode_mov_acc(cur, op, true),
        Form::Group1 => decode_group1(cur, op),
        Form::Group2 => decode_group2(cur, op),
        Form::InImm => match cur.take() {
            None => Err(ErrorKind::ShortRead),
            Some(port) => Ok(Instruction::InPort { wide, port }),
        },
        Form::OutImm => match cur.take() {
            None => Err(ErrorKind::ShortRead),
            Some(port) => Ok(Instruction::OutPort { wide, port }),
        },
        Form::InDx => Ok(
            Instruction::Pair {
                op: Mnemonic::In,
                dst: Operand::Reg(accumulator_of(wide)),
                src: Operand::Reg(Register::Dx),
            },
        ),
        Form::OutDx => Ok(
            Instruction::Pair {
                op: Mnemonic::Out,
                dst: Operand::Reg(Register::Dx),
                src: Operand::Reg(accumulator_of(wide)),
            },
        ),
        Form::LoadPointer(mn) => decode_load_pointer(cur, mn),
        Form::PopRegMem => decode_pop_reg_mem(cur),
        Form::CondJump => decode_short_jump(cur, Mnemonic::cond_jump(op & 15)),
        Form::Loop => decode_short_jump(cur, Mnemonic::loop_kind(op & 3)),
        Form::Standalone(mn) => Ok(Instruction::Bare { op: mn }),
        Form::Aam => match cur.take() {
            None => Err(ErrorKind::ShortRead),
            Some(_divisor) => Ok(Instruction::Bare { op: Mnemonic::Aam }),
        },
    }
}

/// Decodes the instruction at the cursor and moves the cursor past it.
pub fn decode_instruction(cur: &mut Cursor) -> (r: Result<Instruction, ErrorKind>)
    ensures
        final(cur).bytes == old(cur).bytes,
        follows(r, final(cur).pos as int, decode_at(old(cur).bytes@, old(cur).pos as int)),
{
    let op = match cur.take() {
        Some(op) => op,
        None => return Err(ErrorKind::ShortRead),
    };
    match classify(op) {
        None => Err(ErrorKind::UnknownOpcode),
        Some(f) => decode_form_at(cur, f, op),
    }
}

} // verus!
