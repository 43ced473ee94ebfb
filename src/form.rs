//! Classification of an opcode byte into the encoding family that decodes it.
use vstd::prelude::*;
use crate::names::Mnemonic;

verus! {

/// An encoding family: how the bytes after the opcode are laid out.
#[derive(Clone, Copy, Debug, PartialEq, Eq, Structural)]
pub enum Form {
    /// `00aaa0dw`: arithmetic between a register and a register or memory operand.
    AluRegMem,
    /// `00aaa10w`: arithmetic with an immediate into the accumulator.
    AluImmAcc,
    /// `000ss11w`: push (`w = 0`) or pop (`w = 1`) of a segment register.
    SegPushPop,
    /// `01000rrr`: increment a 16-bit register.
    IncReg,
    /// `01001rrr`: decrement a 16-bit register.
    DecReg,
    /// `01010rrr`: push a 16-bit register.
    PushReg,
    /// `01011rrr`: pop a 16-bit register.
    PopReg,
    /// `10010rrr`: exchange a 16-bit register with `ax`.
    XchgAcc,
    /// `1011wrrr`: move an immediate into a register.
    MovImmReg,
    /// `100010dw`: move between a register and a register or memory operand.
    MovRegMem,
    /// `100000sw`: arithmetic with an immediate into a register or memory operand.
    AluImmRegMem,
    /// `1100011w`: move an immediate into a register or memory operand.
    MovImmRegMem,
    /// `1010000w`: move memory at an absolute address into the accumulator.
    MovMemAcc,
    /// `1010001w`: move the accumulator into memory at an absolute address.
    MovAccMem,
    /// `1000010w`: test a register or memory operand against a register.
    TestRegMem,
    /// `1000011w`: exchange a register or memory operand with a register.
    XchgRegMem,
    /// `1010100w`: test the accumulator against an immediate.
    TestImmAcc,
    /// `1111011w`: the unary group `test`, `not`, `neg`, `mul`, `imul`, `div`, `idiv`.
    Group1,
    /// `1111111w`: the unary group `inc`, `dec`, `call`, `jmp`, `push`.
    Group2,
    /// `1110010w`: input from a fixed port.
    InImm,
    /// `1110011w`: output to a fixed port.
    OutImm,
    /// `1110110w`: input from the port in `dx`.
    InDx,
    /// `1110111w`: output to the port in `dx`.
    OutDx,
    /// `lea`, `lds`, `les`: a 16-bit register loaded from a memory operand.
    LoadPointer(Mnemonic),
    /// `10001111`: pop into a register or memory operand.
    PopRegMem,
    /// `0111cccc`: a conditional short jump.
    CondJump,
    /// `111000ll`: a loop or `jcxz` short jump.
    Loop,
    /// A one-byte instruction without operands.
    Standalone(Mnemonic),
    /// `aam`: an opcode followed by a divisor byte that is not written.
    Aam,
}

/// The instruction that a whole opcode byte names, for opcodes matched on all eight bits.
pub open spec fn exact_form(op: u8) -> Option<Form> {
    if op == 0x8d {
        Some(Form::LoadPointer(Mnemonic::Lea))
    } else if op == 0xc5 {
        Some(Form::LoadPointer(Mnemonic::Lds))
    } else if op == 0xc4 {
        Some(Form::LoadPointer(Mnemonic::Les))
    } else if op == 0x8f {
        Some(Form::PopRegMem)
    } else if 0x70 <= op && op <= 0x7f {
        Some(Form::CondJump)
    } else if 0xe0 <= op && op <= 0xe3 {
        Some(Form::Loop)
    } else if op == 0xd7 {
        Some(Form::Standalone(Mnemonic::Xlat))
    } else if op == 0x9f {
        Some(Form::Standalone(Mnemonic::Lahf))
    } else if op == 0x9e {
        Some(Form::Standalone(Mnemonic::Sahf))
    } else if op == 0x9c {
        Some(Form::Standalone(Mnemonic::Pushf))
    } else if op == 0x9d {
        Some(Form::Standalone(Mnemonic::Popf))
    } else if op == 0x37 {
        Some(Form::Standalone(Mnemonic::Aaa))
    } else if op == 0x27 {
        Some(Form::Standalone(Mnemonic::Daa))
    } else if op == 0x3f {
        Some(Form::Standalone(Mnemonic::Aas))
    } else if op == 0x2f {
        Some(Form::Standalone(Mnemonic::Das))
    } else if op == 0xd4 {
        Some(Form::Aam)
    } else {
        None
    }
}

/// The family that decodes opcode `op`: the first match when the opcode's
/// high 4, then 5, 6 and 7 bits, then all 8, are tried in turn.
pub open spec fn form_of(op: u8) -> Option<Form> {
    // 4-bit prefix
    if op & 0xf0 == 0xb0 {
        Some(Form::MovImmReg)
    // 5-bit prefixes
    } else if op & 0xf8 == 0x40 {
        Some(Form::IncReg)
    } else if op & 0xf8 == 0x48 {
        Some(Form::DecReg)
    } else if op & 0xf8 == 0x50 {
        Some(Form::PushReg)
    } else if op & 0xf8 == 0x58 {
        Some(Form::PopReg)
    } else if op & 0xf8 == 0x90 {
        Some(Form::XchgAcc)
    // 6-bit patterns
    } else if op & 0xfc == 0x88 {
        Some(Form::MovRegMem)
    } else if op & 0xfc == 0x80 {
        Some(Form::AluImmRegMem)
    } else if op & 0xc4 == 0x00 {
        Some(Form::AluRegMem)
    // 7-bit patterns
    } else if op & 0xfe == 0xc6 {
        Some(Form::MovImmRegMem)
    } else if op & 0xfe == 0xa0 {
        Some(Form::MovMemAcc)
    } else if op & 0xfe == 0xa2 {
        Some(Form::MovAccMem)
    } else if op & 0xfe == 0x84 {
        Some(Form::TestRegMem)
    } else if op & 0xfe == 0x86 {
        Some(Form::XchgRegMem)
    } else if op & 0xfe == 0xa8 {
        Some(Form::TestImmAcc)
    } else if op & 0xfe == 0xf6 {
        Some(Form::Group1)
    } else if op & 0xfe == 0xfe {
        Some(Form::Group2)
    } else if op & 0xfe == 0xe4 {
        Some(Form::InImm)
    } else if op & 0xfe == 0xe6 {
        Some(Form::OutImm)
    } else if op & 0xfe == 0xec {
        Some(Form::InDx)
    } else if op & 0xfe == 0xee {
        Some(Form::OutDx)
    } else if op & 0xc6 == 0x04 {
        Some(Form::AluImmAcc)
    } else if op & 0xe6 == 0x06 {
        Some(Form::SegPushPop)
    // whole opcodes
    } else {
        exact_form(op)
    }
}

/// The instruction that a whole opcode byte names, for opcodes matched on all eight bits.
fn classify_exact(op: u8) -> (r: Option<Form>)
    ensures
        r == exact_form(op),
{
    if op == 0x8d {
        Some(Form::LoadPointer(Mnemonic::Lea))
    } else if op == 0xc5 {
        Some(Form::LoadPointer(Mnemonic::Lds))
    } else if op == 0xc4 {
        Some(Form::LoadPointer(Mnemonic::Les))
    } else if op == 0x8f {
        Some(Form::PopRegMem)
    } else if 0x70 <= op && op <= 0x7f {
        Some(Form::CondJump)
    } else if 0xe0 <= op && op <= 0xe3 {
        Some(Form::Loop)
    } else if op == 0xd7 {
        Some(Form::Standalone(Mnemonic::Xlat))
    } else if op == 0x9f {
        Some(Form::Standalone(Mnemonic::Lahf))
    } else if op == 0x9e {
        Some(Form::Standalone(Mnemonic::Sahf))
    } else if op == 0x9c {
        Some(Form::Standalone(Mnemonic::Pushf))
    } else if op == 0x9d {
        Some(Form::Standalone(Mnemonic::Popf))
    } else if op == 0x37 {
        Some(Form::Standalone(Mnemonic::Aaa))
    } else if op == 0x27 {
        Some(Form::Standalone(Mnemonic::Daa))
    } else if op == 0x3f {
        Some(Form::Standalone(Mnemonic::Aas))
    } else if op == 0x2f {
        Some(Form::Standalone(Mnemonic::Das))
    } else if op == 0xd4 {
        Some(Form::Aam)
    } else {
        None
    }
}

/// The family that decodes opcode `op`, trying its high 4, 5, 6, 7 and then all 8 bits.
pub fn classify(op: u8) -> (r: Option<Form>)
    ensures
        r == form_of(op),
{
    // 4-bit prefix
    if op & 0xf0 == 0xb0 {
        Some(Form::MovImmReg)
    // 5-bit prefixes
    } else if op & 0xf8 == 0x40 {
        Some(Form::IncReg)
    } else if op & 0xf8 == 0x48 {
        Some(Form::DecReg)
    } else if op & 0xf8 == 0x50 {
        Some(Form::PushReg)
    } else if op & 0xf8 == 0x58 {
        Some(Form::PopReg)
    } else if op & 0xf8 == 0x90 {
        Some(Form::XchgAcc)
    // 6-bit patterns
    } else if op & 0xfc == 0x88 {
        Some(Form::MovRegMem)
    } else if op & 0xfc == 0x80 {
        Some(Form::AluImmRegMem)
    } else if op & 0xc4 == 0x00 {
        Some(Form::AluRegMem)
    // 7-bit patterns
    } else if op & 0xfe == 0xc6 {
        Some(Form::MovImmRegMem)
    } else if op & 0xfe == 0xa0 {
        Some(Form::MovMemAcc)
    } else if op & 0xfe == 0xa2 {
        Some(Form::MovAccMem)
    } else if op & 0xfe == 0x84 {
        Some(Form::TestRegMem)
    } else if op & 0xfe == 0x86 {
        Some(Form::XchgRegMem)
    } else if op & 0xfe == 0xa8 {
        Some(Form::TestImmAcc)
    } else if op & 0xfe == 0xf6 {
        Some(Form::Group1)
    } else if op & 0xfe == 0xfe {
        Some(Form::Group2)
    } else if op & 0xfe == 0xe4 {
        Some(Form::InImm)
    } else if op & 0xfe == 0xe6 {
        Some(Form::OutImm)
    } else if op & 0xfe == 0xec {
        Some(Form::InDx)
    } else if op & 0xfe == 0xee {
        Some(Form::OutDx)
    } else if op & 0xc6 == 0x04 {
        Some(Form::AluImmAcc)
    } else if op & 0xe6 == 0x06 {
        Some(Form::SegPushPop)
    // whole opcodes
    } else {
        classify_exact(op)
    }
}

} // verus!
