//! A forward-only reader over a byte buffer.
use vstd::prelude::*;

verus! {

/// The signed value of a byte read as a two's-complement 8-bit number.
pub open spec fn sign_extend8(b: u8) -> i16 {
    if b < 128 {
        b as i16
    } else {
        (b - 256) as i16
    }
}

/// The unsigned value of two bytes in little-endian order.
pub open spec fn le_u16(lo: u8, hi: u8) -> u16 {
    (lo + 256 * hi) as u16
}

/// The signed value of two bytes in little-endian order, read as two's complement.
pub open spec fn le_i16(lo: u8, hi: u8) -> i16 {
    let v = lo + 256 * hi;
    if v < 32768 {
        v as i16
    } else {
        (v - 65536) as i16
    }
}

/// A position in a byte buffer that only moves forward.
pub struct Cursor<'a> {
    pub bytes: &'a [u8],
    pub pos: usize,
}

impl<'a> Cursor<'a> {
    /// A cursor at the start of `bytes`.
    pub fn new(bytes: &'a [u8]) -> (r: Cursor<'a>)
        ensures
            r.bytes@ == bytes@,
            r.pos == 0,
    {
        Cursor { bytes, pos: 0 }
    }

    /// Whether every byte has been read.
    pub fn at_end(&self) -> (r: bool)
        ensures
            r == (self.pos >= self.bytes@.len()),
    {
        self.pos >= self.bytes.len()
    }

    /// The byte at the current position, without advancing.
    pub fn peek(&self) -> (r: Option<u8>)
        ensures
            self.pos < self.bytes@.len() ==> r == Some(self.bytes@[self.pos as int]),
            self.pos >= self.bytes@.len() ==> r is None,
    {
        if self.pos < self.bytes.len() {
            Some(self.bytes[self.pos])
        } else {
            None
        }
    }

    /// The byte at the current position; advances past it.
    pub fn take(&mut self) -> (r: Option<u8>)
        ensures
            final(self).bytes == old(self).bytes,
            old(self).pos < old(self).bytes@.len() ==> r == Some(old(self).bytes@[old(self).pos as int])
                && final(self).pos == old(self).pos + 1,
            old(self).pos >= old(self).bytes@.len() ==> r is None && final(self).pos == old(self).pos,
    {
        if self.pos < self.bytes.len() {
            let b = self.bytes[self.pos];
            self.pos = self.pos + 1;
            Some(b)
        } else {
            None
        }
    }

    /// The next byte read as a signed 8-bit number, widened to 16 bits.
    pub fn take_i8(&mut self) -> (r: Option<i16>)
        ensures
            final(self).bytes == old(self).bytes,
            old(self).pos < old(self).bytes@.len() ==> r == Some(
                sign_extend8(old(self).bytes@[old(self).pos as int]),
            )
                && final(self).pos == old(self).pos + 1,
            old(self).pos >= old(self).bytes@.len() ==> r is None && final(self).pos == old(self).pos,
    {
        match self.take() {
            Some(b) => {
                if b < 128 {
                    Some(b as i16)
                } else {
                    Some(b as i16 - 256)
                }
            },
            None => None,
        }
    }

    /// The next two bytes read as an unsigned little-endian number.
    pub fn take_u16_le(&mut self) -> (r: Option<u16>)
        ensures
            final(self).bytes == old(self).bytes,
            old(self).pos + 2 <= old(self).bytes@.len() ==> r == Some(
                le_u16(old(self).bytes@[old(self).pos as int], old(self).bytes@[old(self).pos + 1]),
            ) && final(self).pos == old(self).pos + 2,
            old(self).pos + 2 > old(self).bytes@.len() ==> r is None && final(self).pos == old(self).pos,
    {
        if self.pos >= self.bytes.len() || self.bytes.len() - self.pos < 2 {
            return None;
        }
        let lo = self.bytes[self.pos];
        let hi = self.bytes[self.pos + 1];
        self.pos = self.pos + 2;
        Some(lo as u16 + 256 * hi as u16)
    }

    /// The next two bytes read as a signed little-endian number.
    pub fn take_i16_le(&mut self) -> (r: Option<i16>)
        ensures
            final(self).bytes == old(self).bytes,
            old(self).pos + 2 <= old(self).bytes@.len() ==> r == Some(
                le_i16(old(self).bytes@[old(self).pos as int], old(self).bytes@[old(self).pos + 1]),
            ) && final(self).pos == old(self).pos + 2,
            old(self).pos + 2 > old(self).bytes@.len() ==> r is None && final(self).pos == old(self).pos,
    {
        match self.take_u16_le() {
            Some(v) => {
                if v < 32768 {
                    Some(v as i16)
                } else {
                    Some((v as i32 - 65536) as i16)
                }
            },
            None => None,
        }
    }
}

} // verus!
