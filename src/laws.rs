//! Properties of the decoder and its text that relate several definitions.
use vstd::prelude::*;
use crate::cursor::sign_extend8;
use crate::decode::{
    decode_at, effective_address, mod_field, mov_imm_reg, reg_field, rm_field, ErrorKind,
};
use crate::form::{form_of, Form};
use crate::instruction::{Instruction, Operand};
use crate::listing::{header_text, lemma_decode_advances, lines_from, listing};
use crate::names::{alu_mnemonic, base_text, memory_base, mnemonic_text, Base, Mnemonic};
use crate::text::{
    decimal, displacement_text, instruction_text, operand_text, signed_decimal, size_tag,
};

verus! {

/// The instruction that starts at `pos`, when there is one.
pub open spec fn instruction_at(bytes: Seq<u8>, pos: int) -> Instruction {
    decode_at(bytes, pos)->Ok_0.0
}

/// Whether an instruction starts at `pos` and ends at `next`.
pub open spec fn spans(bytes: Seq<u8>, pos: int, next: int) -> bool {
    decode_at(bytes, pos) is Ok && decode_at(bytes, pos)->Ok_0.1 == next
}

/// The lines decoded from each boundary onward, when every boundary from
/// `bounds[i]` on starts an instruction that ends at the next one.
proof fn lemma_lines_from_bounds(bytes: Seq<u8>, bounds: Seq<int>, i: int)
    requires
        0 <= i < bounds.len(),
        bounds.last() == bytes.len(),
        forall|k: int| i <= k < bounds.len() - 1 ==> spans(bytes, #[trigger] bounds[k], bounds[k + 1]),
    ensures
        lines_from(bytes, bounds[i]) is Ok,
        lines_from(bytes, bounds[i])->Ok_0.len() == bounds.len() - 1 - i,
        forall|j: int|
            0 <= j < bounds.len() - 1 - i ==> #[trigger] lines_from(bytes, bounds[i])->Ok_0[j]
                == instruction_text(instruction_at(bytes, bounds[i + j])),
    decreases bounds.len() - i,
{
    if i < bounds.len() - 1 {
        lemma_lines_from_bounds(bytes, bounds, i + 1);
        assert(spans(bytes, bounds[i], bounds[i + 1]));
        lemma_decode_advances(bytes, bounds[i]);
        let rest = lines_from(bytes, bounds[i + 1])->Ok_0;
        assert(lines_from(bytes, bounds[i])->Ok_0 == seq![instruction_text(instruction_at(bytes, bounds[i]))]
            + rest);
        assert forall|j: int| 0 < j < bounds.len() - 1 - i implies #[trigger] lines_from(
            bytes,
            bounds[i],
        )->Ok_0[j] == instruction_text(instruction_at(bytes, bounds[i + j])) by {
            assert(rest[j - 1] == instruction_text(instruction_at(bytes, bounds[(i + 1) + (j - 1)])));
            assert(i + 1 + (j - 1) == i + j);
        }
    }
}

/// A buffer that splits into instructions, each decoding to end exactly where
/// the next begins and the last at the buffer's end, decodes in full: the
/// listing has the directive line and then one line per instruction, in order.
pub proof fn law_well_formed_termination(bytes: Seq<u8>, bounds: Seq<int>)
    requires
        bounds.len() >= 1,
        bounds[0] == 0,
        bounds.last() == bytes.len(),
        forall|k: int| 0 <= k < bounds.len() - 1 ==> spans(bytes, #[trigger] bounds[k], bounds[k + 1]),
    ensures
        listing(bytes) is Ok,
        listing(bytes)->Ok_0.len() == bounds.len(),
        listing(bytes)->Ok_0[0] == header_text(),
        forall|k: int|
            0 <= k < bounds.len() - 1 ==> #[trigger] listing(bytes)->Ok_0[k + 1] == instruction_text(
                instruction_at(bytes, bounds[k]),
            ),
{
    lemma_lines_from_bounds(bytes, bounds, 0);
    let body = lines_from(bytes, 0)->Ok_0;
    assert forall|k: int| 0 <= k < bounds.len() - 1 implies #[trigger] listing(bytes)->Ok_0[k + 1]
        == instruction_text(instruction_at(bytes, bounds[k])) by {
        assert(body[k] == instruction_text(instruction_at(bytes, bounds[0 + k])));
    }
}

/// A memory operand's displacement is written ` + d` when positive, ` - |d|`
/// when negative, and not at all when zero.
pub proof fn law_displacement_rendering(b: Base, d: i16)
    ensures
        d > 0 ==> operand_text(Operand::Indirect(b, d)) == "["@ + base_text(b) + " + "@ + decimal(d as nat)
            + "]"@,
        d < 0 ==> operand_text(Operand::Indirect(b, d)) == "["@ + base_text(b) + " - "@ + decimal(
            (-d) as nat,
        ) + "]"@,
        d == 0 ==> operand_text(Operand::Indirect(b, d)) == "["@ + base_text(b) + "]"@,
{
    assert(d == 0 ==> "["@ + base_text(b) + displacement_text(d as int) =~= "["@ + base_text(b));
}

/// A byte with its high bit set, read as a signed 8-bit displacement or
/// immediate, is a number in `-128..=-1` and is written as a negative decimal.
pub proof fn law_sign_extension(b: u8)
    requires
        b >= 128,
    ensures
        -128 <= sign_extend8(b) <= -1,
        sign_extend8(b) == b - 256,
        signed_decimal(sign_extend8(b) as int) == "-"@ + decimal((256 - b) as nat),
        displacement_text(sign_extend8(b) as int) == " - "@ + decimal((256 - b) as nat),
{
}

/// A one-byte displacement (`mod = 01`) with its high bit set decodes to a
/// negative displacement and is written as ` - ` and its magnitude.
pub proof fn law_byte_displacement_sign(bytes: Seq<u8>, at: int, wide: bool)
    requires
        0 <= at,
        at + 1 < bytes.len(),
        mod_field(bytes[at]) == 1,
        bytes[at + 1] >= 128,
    ensures
        ({
            let b = memory_base(rm_field(bytes[at]));
            let d = sign_extend8(bytes[at + 1]);
            &&& effective_address(bytes, at, wide) == Some(
                (reg_field(bytes[at]), Operand::Indirect(b, d), at + 2),
            )
            &&& -128 <= d <= -1
            &&& operand_text(Operand::Indirect(b, d)) == "["@ + base_text(b) + " - "@ + decimal(
                (256 - bytes[at + 1]) as nat,
            ) + "]"@
        }),
{
    let m = bytes[at];
    assert(m >> 6 == 1 ==> m >> 6 != 3 && m >> 6 != 0) by (bit_vector);
}

/// Arithmetic with an immediate into a register or memory operand whose `s`
/// bit is set reads a one-byte immediate; with its high bit set, the value is
/// negative and is written as `-` and its magnitude.
pub proof fn law_sign_extended_immediate(bytes: Seq<u8>, pos: int)
    requires
        0 <= pos < bytes.len(),
        form_of(bytes[pos]) == Some(Form::AluImmRegMem),
        bytes[pos] & 2 == 2,
        effective_address(bytes, pos + 1, bytes[pos] & 1 == 1) is Some,
        (effective_address(bytes, pos + 1, bytes[pos] & 1 == 1)->Some_0).2 < bytes.len(),
        bytes[(effective_address(bytes, pos + 1, bytes[pos] & 1 == 1)->Some_0).2] >= 128,
    ensures
        ({
            let (reg, dst, end) = effective_address(bytes, pos + 1, bytes[pos] & 1 == 1)->Some_0;
            let v = sign_extend8(bytes[end]);
            &&& decode_at(bytes, pos) == Ok::<(Instruction, int), ErrorKind>(
                (
                    Instruction::Immediate {
                        op: alu_mnemonic(reg),
                        wide: bytes[pos] & 1 == 1,
                        dst,
                        value: v,
                    },
                    end + 1,
                ),
            )
            &&& -128 <= v <= -1
            &&& signed_decimal(v as int) == "-"@ + decimal((256 - bytes[end]) as nat)
        }),
{
}

/// An instruction with an immediate is written with exactly one width tag,
/// `word` or `byte`, before a memory destination, and with none before a
/// register destination.
pub proof fn law_size_prefix(op: Mnemonic, wide: bool, dst: Operand, value: i16)
    ensures
        ({
            let text = instruction_text(Instruction::Immediate { op, wide, dst, value });
            &&& dst.is_memory() ==> text == mnemonic_text(op) + " "@ + size_tag(wide) + operand_text(dst)
                + ", "@ + signed_decimal(value as int)
            &&& !dst.is_memory() ==> text == mnemonic_text(op) + " "@ + operand_text(dst) + ", "@
                + signed_decimal(value as int)
        }),
        size_tag(wide) == (if wide { "word "@ } else { "byte "@ }),
{
}

/// Every opcode whose high four bits are `1011` is a move of an immediate into
/// a register, whatever its longer prefixes would otherwise match.
pub proof fn law_dispatcher_precedence(bytes: Seq<u8>, pos: int)
    requires
        0 <= pos < bytes.len(),
        bytes[pos] & 0xf0 == 0xb0,
    ensures
        form_of(bytes[pos]) == Some(Form::MovImmReg),
        decode_at(bytes, pos) == mov_imm_reg(bytes[pos], bytes, pos + 1),
{
}

/// A move or arithmetic between a register and a register or memory operand
/// encoded twice, once with the `d` bit clear and once with it set and the
/// other bytes the same, decodes to the same instruction with its two operands
/// swapped, and so to the same line with its operands swapped.
pub proof fn law_direction_bit(bytes: Seq<u8>, pos: int)
    requires
        0 <= pos < bytes.len(),
        form_of(bytes[pos]) == Some(Form::MovRegMem) || form_of(bytes[pos]) == Some(Form::AluRegMem),
    ensures
        ({
            let reg_is_src = bytes.update(pos, bytes[pos] & 0xfd);
            let reg_is_dst = bytes.update(pos, bytes[pos] | 0x02);
            &&& decode_at(reg_is_src, pos) is Err ==> decode_at(reg_is_src, pos) == decode_at(reg_is_dst, pos)
            &&& decode_at(reg_is_src, pos) is Ok ==> {
                &&& decode_at(reg_is_dst, pos) is Ok
                &&& decode_at(reg_is_src, pos)->Ok_0.1 == decode_at(reg_is_dst, pos)->Ok_0.1
                &&& match (instruction_at(reg_is_src, pos), instruction_at(reg_is_dst, pos)) {
                    (
                        Instruction::Pair { op: op1, dst: dst1, src: src1 },
                        Instruction::Pair { op: op2, dst: dst2, src: src2 },
                    ) => {
                        &&& op1 == op2 && dst1 == src2 && src1 == dst2
                        &&& instruction_text(instruction_at(reg_is_src, pos)) == mnemonic_text(op1) + " "@
                            + operand_text(dst1) + ", "@ + operand_text(src1)
                        &&& instruction_text(instruction_at(reg_is_dst, pos)) == mnemonic_text(op1) + " "@
                            + operand_text(src1) + ", "@ + operand_text(dst1)
                    },
                    _ => false,
                }
            }
        }),
{
    let o = bytes[pos];
    let lo = o & 0xfd;
    let hi = o | 0x02;
    assert(lo & 0xf0 == o & 0xf0 && hi & 0xf0 == o & 0xf0 && lo & 0xf8 == o & 0xf8 && hi & 0xf8 == o & 0xf8
        && lo & 0xfc == o & 0xfc && hi & 0xfc == o & 0xfc && lo & 0xc4 == o & 0xc4 && hi & 0xc4 == o & 0xc4
        && lo & 1 == o & 1 && hi & 1 == o & 1 && lo & 2 == 0 && hi & 2 == 2
        && (lo >> 3) & 7 == (o >> 3) & 7 && (hi >> 3) & 7 == (o >> 3) & 7) by (bit_vector)
        requires
            lo == o & 0xfd,
            hi == o | 0x02,
    ;
    let reg_is_src = bytes.update(pos, lo);
    let reg_is_dst = bytes.update(pos, hi);
    assert(reg_is_src.len() == reg_is_dst.len());
    assert(forall|i: int| pos < i < bytes.len() ==> reg_is_src[i] == reg_is_dst[i]);
}

} // verus!
