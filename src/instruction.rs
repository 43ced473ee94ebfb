//! The decoded form of an instruction.
use vstd::prelude::*;
use crate::names::{Base, Mnemonic, Register};

verus! {

/// An operand that a ModR/M byte selects.
#[derive(Clone, Copy, Debug, PartialEq, Eq, Structural)]
pub enum Operand {
    /// A register.
    Reg(Register),
    /// Memory at an absolute 16-bit address: `[addr]`.
    Direct(u16),
    /// Memory at a base plus a signed displacement: `[base]`, `[base + d]` or `[base - d]`.
    Indirect(Base, i16),
}

impl Operand {
    /// Whether this operand names memory rather than a register.
    pub open spec fn is_memory(self) -> bool {
        !(self is Reg)
    }
}

/// One decoded instruction, shaped by how its line is written.
#[derive(Clone, Copy, Debug, PartialEq, Eq, Structural)]
pub enum Instruction {
    /// `op dst, src`.
    Pair { op: Mnemonic, dst: Operand, src: Operand },
    /// `op dst, value`, with `word` or `byte` before a memory destination.
    Immediate { op: Mnemonic, wide: bool, dst: Operand, value: i16 },
    /// `op operand`, with `word` or `byte` before a memory operand.
    Single { op: Mnemonic, wide: bool, operand: Operand },
    /// `op $+2+disp`: a jump relative to the end of its two bytes.
    Jump { op: Mnemonic, disp: i16 },
    /// `in al, port` or `in ax, port`.
    InPort { wide: bool, port: u8 },
    /// `out port, al` or `out port, ax`.
    OutPort { wide: bool, port: u8 },
    /// `op` alone.
    Bare { op: Mnemonic },
}

/// The accumulator of the given width: `ax` or `al`.
pub open spec fn accumulator(wide: bool) -> Register {
    if wide {
        Register::Ax
    } else {
        Register::Al
    }
}

/// The accumulator of the given width: `ax` or `al`.
pub fn accumulator_of(wide: bool) -> (r: Register)
    ensures
        r == accumulator(wide),
{
    if wide {
        Register::Ax
    } else {
        Register::Al
    }
}

} // verus!
