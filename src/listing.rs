//! Decoding a whole buffer into an assembler listing.
use vstd::prelude::*;
use crate::cursor::Cursor;
use crate::decode::{decode_at, decode_instruction, ErrorKind};
use crate::text::{instruction_text, render};

verus! {

/// A failure to decode, with the offset of the instruction where it happened.
#[derive(Clone, Copy, Debug, PartialEq, Eq, Structural)]
pub struct DecodeError {
    pub kind: ErrorKind,
    pub offset: usize,
}

/// Lines of text, or the first error and the offset of its instruction.
pub type Listing = Result<Seq<Seq<char>>, (ErrorKind, int)>;

/// Every successful decode moves past at least one byte and stays within the input.
pub proof fn lemma_decode_advances(bytes: Seq<u8>, pos: int)
    ensures
        decode_at(bytes, pos) matches Ok((_, next)) ==> pos < next <= bytes.len(),
{
}

/// The lines of the instructions from `pos` to the end of `bytes`, or the first
/// error with the offset of the instruction where it happened.
pub open spec fn lines_from(bytes: Seq<u8>, pos: int) -> Listing
    decreases bytes.len() - pos,
{
    if pos >= bytes.len() {
        Ok(Seq::empty())
    } else {
        match decode_at(bytes, pos) {
            Err(k) => Err((k, pos)),
            Ok((ins, next)) => {
                proof {
                    lemma_decode_advances(bytes, pos);
                }
                match lines_from(bytes, next) {
                    Ok(rest) => Ok(seq![instruction_text(ins)] + rest),
                    Err(e) => Err(e),
                }
            },
        }
    }
}

/// The directive line that opens every listing.
pub open spec fn header_text() -> Seq<char> {
    "bits 16"@
}

/// The listing of `bytes`: the directive line, then one line per instruction.
pub open spec fn listing(bytes: Seq<u8>) -> Listing {
    match lines_from(bytes, 0) {
        Ok(lines) => Ok(seq![header_text()] + lines),
        Err(e) => Err(e),
    }
}

/// The text of each line.
pub open spec fn lines_view(lines: Seq<String>) -> Seq<Seq<char>> {
    lines.map_values(|s: String| s@)
}

/// Decodes all of `bytes` into the lines of a listing, or reports the first
/// instruction that cannot be decoded.
pub fn disassemble(bytes: &[u8]) -> (r: Result<Vec<String>, DecodeError>)
    ensures
        match r {
            Ok(lines) => listing(bytes@) == Ok::<Seq<Seq<char>>, (ErrorKind, int)>(lines_view(lines@)),
            Err(e) => listing(bytes@) == Err::<Seq<Seq<char>>, (ErrorKind, int)>((e.kind, e.offset as int)),
        },
{
    let mut out: Vec<String> = Vec::new();
    out.push(String::from_str("bits 16"));
    let mut cur = Cursor::new(bytes);
    assert(lines_view(out@) =~= seq![header_text()]);
    while !cur.at_end()
        invariant
            cur.bytes@ == bytes@,
            cur.pos <= bytes@.len(),
            match lines_from(bytes@, cur.pos as int) {
                Ok(rest) => listing(bytes@) == Ok::<Seq<Seq<char>>, (ErrorKind, int)>(
                    lines_view(out@) + rest,
                ),
                Err(e) => listing(bytes@) == Err::<Seq<Seq<char>>, (ErrorKind, int)>(e),
            },
        decreases bytes@.len() - cur.pos,
    {
        let start = cur.pos;
        proof {
            lemma_decode_advances(bytes@, start as int);
        }
        match decode_instruction(&mut cur) {
            Err(kind) => {
                return Err(DecodeError { kind, offset: start });
            },
            Ok(ins) => {
                let line = render(&ins);
                let ghost before = out@;
                out.push(line);
                proof {
                    assert(lines_view(out@) =~= lines_view(before) + seq![instruction_text(ins)]);
                    if let Ok(rest) = lines_from(bytes@, cur.pos as int) {
                        assert(lines_view(before) + (seq![instruction_text(ins)] + rest)
                            =~= lines_view(out@) + rest);
                    }
                }
            },
        }
    }
    Ok(out)
}

} // verus!
