//! How an instruction is written as a line of assembler text.
use vstd::prelude::*;
use crate::instruction::{accumulator, accumulator_of, Instruction, Operand};
use crate::names::{base_text, mnemonic_text, register_text, Mnemonic};

verus! {

/// The decimal digit with value `d`.
pub open spec fn digit_char(d: nat) -> char {
    if d == 0 {
        '0'
    } else if d == 1 {
        '1'
    } else if d == 2 {
        '2'
    } else if d == 3 {
        '3'
    } else if d == 4 {
        '4'
    } else if d == 5 {
        '5'
    } else if d == 6 {
        '6'
    } else if d == 7 {
        '7'
    } else if d == 8 {
        '8'
    } else {
        '9'
    }
}

/// The decimal digits of `n`, without leading zeros.
pub open spec fn decimal(n: nat) -> Seq<char>
    decreases n,
{
    if n < 10 {
        seq![digit_char(n)]
    } else {
        decimal(n / 10) + seq![digit_char(n % 10)]
    }
}

/// `v` in decimal, with a leading `-` when negative.
pub open spec fn signed_decimal(v: int) -> Seq<char> {
    if v < 0 {
        "-"@ + decimal((-v) as nat)
    } else {
        decimal(v as nat)
    }
}

/// The displacement inside a memory operand's brackets: ` + d`, ` - |d|`, or nothing for zero.
pub open spec fn displacement_text(d: int) -> Seq<char> {
    if d > 0 {
        " + "@ + decimal(d as nat)
    } else if d < 0 {
        " - "@ + decimal((-d) as nat)
    } else {
        Seq::empty()
    }
}

/// How an operand is written.
pub open spec fn operand_text(op: Operand) -> Seq<char> {
    match op {
        Operand::Reg(r) => register_text(r),
        Operand::Direct(addr) => "["@ + decimal(addr as nat) + "]"@,
        Operand::Indirect(b, d) => "["@ + base_text(b) + displacement_text(d as int) + "]"@,
    }
}

/// The width tag that goes before a memory operand.
pub open spec fn size_tag(wide: bool) -> Seq<char> {
    if wide {
        "word "@
    } else {
        "byte "@
    }
}

/// An operand whose width the text must make plain: tagged when it is memory.
pub open spec fn sized_operand_text(wide: bool, op: Operand) -> Seq<char> {
    if op.is_memory() {
        size_tag(wide) + operand_text(op)
    } else {
        operand_text(op)
    }
}

/// The line of assembler text for an instruction.
pub open spec fn instruction_text(ins: Instruction) -> Seq<char> {
    match ins {
        Instruction::Pair { op, dst, src } => mnemonic_text(op) + " "@ + operand_text(dst) + ", "@
            + operand_text(src),
        Instruction::Immediate { op, wide, dst, value } => mnemonic_text(op) + " "@
            + sized_operand_text(wide, dst) + ", "@ + signed_decimal(value as int),
        Instruction::Single { op, wide, operand } => mnemonic_text(op) + " "@ + sized_operand_text(
            wide,
            operand,
        ),
        Instruction::Jump { op, disp } => mnemonic_text(op) + " $+2+"@ + signed_decimal(disp as int),
        Instruction::InPort { wide, port } => mnemonic_text(Mnemonic::In) + " "@ + register_text(
            accumulator(wide),
        ) + ", "@ + decimal(port as nat),
        Instruction::OutPort { wide, port } => mnemonic_text(Mnemonic::Out) + " "@ + decimal(
            port as nat,
        ) + ", "@ + register_text(accumulator(wide)),
        Instruction::Bare { op } => mnemonic_text(op),
    }
}

/// The one-character text of the decimal digit `d`.
fn digit_str(d: u32) -> (r: &'static str)
    requires
        d < 10,
    ensures
        r@ == seq![digit_char(d as nat)],
{
    match d {
        0 => {
            proof {
                reveal_strlit("0");
            }
            "0"
        },
        1 => {
            proof {
                reveal_strlit("1");
            }
            "1"
        },
        2 => {
            proof {
                reveal_strlit("2");
            }
            "2"
        },
        3 => {
            proof {
                reveal_strlit("3");
            }
            "3"
        },
        4 => {
            proof {
                reveal_strlit("4");
            }
            "4"
        },
        5 => {
            proof {
                reveal_strlit("5");
            }
            "5"
        },
        6 => {
            proof {
                reveal_strlit("6");
            }
            "6"
        },
        7 => {
            proof {
                reveal_strlit("7");
            }
            "7"
        },
        8 => {
            proof {
                reveal_strlit("8");
            }
            "8"
        },
        _ => {
            proof {
                reveal_strlit("9");
            }
            "9"
        },
    }
}

/// Appends the decimal digits of `n`.
pub fn push_decimal(out: &mut String, n: u32)
    ensures
        final(out)@ == old(out)@ + decimal(n as nat),
    decreases n,
{
    if n >= 10 {
        push_decimal(out, n / 10);
    }
    out.append(digit_str(n % 10));
    proof {
        if n >= 10 {
            assert(final(out)@ =~= old(out)@ + decimal(n as nat));
        }
    }
}

/// Appends `v` in decimal, with a leading `-` when negative.
pub fn push_signed(out: &mut String, v: i16)
    ensures
        final(out)@ == old(out)@ + signed_decimal(v as int),
{
    if v < 0 {
        out.append("-");
        push_decimal(out, (0 - (v as i32)) as u32);
        assert(final(out)@ =~= old(out)@ + signed_decimal(v as int));
    } else {
        push_decimal(out, v as u32);
    }
}

/// Appends how `op` is written.
pub fn push_operand(out: &mut String, op: &Operand)
    ensures
        final(out)@ == old(out)@ + operand_text(*op),
{
    match op {
        Operand::Reg(r) => {
            out.append(r.name());
        },
        Operand::Direct(addr) => {
            out.append("[");
            push_decimal(out, *addr as u32);
            out.append("]");
            assert(final(out)@ =~= old(out)@ + operand_text(*op));
        },
        Operand::Indirect(b, d) => {
            out.append("[");
            out.append(b.name());
            if *d > 0 {
                out.append(" + ");
                push_decimal(out, *d as u32);
            } else if *d < 0 {
                out.append(" - ");
                push_decimal(out, (0 - (*d as i32)) as u32);
            }
            out.append("]");
            assert(final(out)@ =~= old(out)@ + operand_text(*op));
        },
    }
}

/// Appends `op`, preceded by its width tag when it is memory.
pub fn push_sized_operand(out: &mut String, wide: bool, op: &Operand)
    ensures
        final(out)@ == old(out)@ + sized_operand_text(wide, *op),
{
    match op {
        Operand::Reg(_) => {},
        _ => {
            if wide {
                out.append("word ");
            } else {
                out.append("byte ");
            }
        },
    }
    push_operand(out, op);
    assert(final(out)@ =~= old(out)@ + sized_operand_text(wide, *op));
}

/// The line of assembler text for `ins`.
pub fn render(ins: &Instruction) -> (r: String)
    ensures
        r@ == instruction_text(*ins),
{
    let mut out = String::new();
    match ins {
        Instruction::Pair { op, dst, src } => {
            out.append(op.name());
            out.append(" ");
            push_operand(&mut out, dst);
            out.append(", ");
            push_operand(&mut out, src);
        },
        Instruction::Immediate { op, wide, dst, value } => {
            out.append(op.name());
            out.append(" ");
            push_sized_operand(&mut out, *wide, dst);
            out.append(", ");
            push_signed(&mut out, *value);
        },
        Instruction::Single { op, wide, operand } => {
            out.append(op.name());
            out.append(" ");
            push_sized_operand(&mut out, *wide, operand);
        },
        Instruction::Jump { op, disp } => {
            out.append(op.name());
            out.append(" $+2+");
            push_signed(&mut out, *disp);
        },
        Instruction::InPort { wide, port } => {
            out.append(Mnemonic::In.name());
            out.append(" ");
            out.append(accumulator_of(*wide).name());
            out.append(", ");
            push_decimal(&mut out, *port as u32);
        },
        Instruction::OutPort { wide, port } => {
            out.append(Mnemonic::Out.name());
            out.append(" ");
            push_decimal(&mut out, *port as u32);
            out.append(", ");
            out.append(accumulator_of(*wide).name());
        },
        Instruction::Bare { op } => {
            out.append(op.name());
        },
    }
    assert(out@ =~= instruction_text(*ins));
    out
}

} // verus!
