use vstd::prelude::*;

use crate::error::DecodeError;

verus! {

/// A read position over an immutable byte sequence.
///
/// The position only ever advances, and only by the exact number of bytes a
/// successful read consumed; a read that would pass the end of the data
/// fails with `UnexpectedEndOfBuffer` and leaves the position unchanged.
pub struct Cursor {
    pub data: Vec<u8>,
    pub pos: usize,
}

/// Big-endian value of two bytes.
pub open spec fn be_u16(b: Seq<u8>) -> u16
    recommends
        b.len() == 2,
{
    (b[0] * 0x100 + b[1]) as u16
}

/// Big-endian value of four bytes.
pub open spec fn be_u32(b: Seq<u8>) -> u32
    recommends
        b.len() == 4,
{
    (b[0] * 0x100_0000 + b[1] * 0x1_0000 + b[2] * 0x100 + b[3]) as u32
}

/// Big-endian value of eight bytes.
pub open spec fn be_u64(b: Seq<u8>) -> u64
    recommends
        b.len() == 8,
{
    (b[0] * 0x100_0000_0000_0000
        + b[1] * 0x1_0000_0000_0000
        + b[2] * 0x100_0000_0000
        + b[3] * 0x1_0000_0000
        + b[4] * 0x100_0000
        + b[5] * 0x1_0000
        + b[6] * 0x100
        + b[7]) as u64
}

/// Reading one byte at `pos`: the byte and the position after it, or
/// `UnexpectedEndOfBuffer` when `pos` is at or past the end.
pub open spec fn spec_read_u8(s: Seq<u8>, pos: int) -> Result<(u8, int), DecodeError> {
    if pos + 1 <= s.len() {
        Ok((s[pos], pos + 1))
    } else {
        Err(DecodeError::UnexpectedEndOfBuffer { offset: pos as usize })
    }
}

/// Reading `n` raw bytes starting at `pos`.
pub open spec fn spec_read_bytes(s: Seq<u8>, pos: int, n: int) -> Result<(Seq<u8>, int), DecodeError> {
    if pos + n <= s.len() {
        Ok((s.subrange(pos, pos + n), pos + n))
    } else {
        Err(DecodeError::UnexpectedEndOfBuffer { offset: pos as usize })
    }
}

/// Reading a two-byte big-endian integer starting at `pos`.
pub open spec fn spec_read_u16(s: Seq<u8>, pos: int) -> Result<(u16, int), DecodeError> {
    match spec_read_bytes(s, pos, 2) {
        Ok((b, p)) => Ok((be_u16(b), p)),
        Err(e) => Err(e),
    }
}

/// Reading a four-byte big-endian integer starting at `pos`.
pub open spec fn spec_read_u32(s: Seq<u8>, pos: int) -> Result<(u32, int), DecodeError> {
    match spec_read_bytes(s, pos, 4) {
        Ok((b, p)) => Ok((be_u32(b), p)),
        Err(e) => Err(e),
    }
}

/// Reading an eight-byte big-endian integer starting at `pos`.
pub open spec fn spec_read_u64(s: Seq<u8>, pos: int) -> Result<(u64, int), DecodeError> {
    match spec_read_bytes(s, pos, 8) {
        Ok((b, p)) => Ok((be_u64(b), p)),
        Err(e) => Err(e),
    }
}

impl Cursor {
    /// A cursor over `data`, positioned at the first byte.
    pub fn new(data: Vec<u8>) -> (c: Cursor)
        ensures
            c.data@ == data@,
            c.pos == 0,
    {
        Cursor { data, pos: 0 }
    }

    /// The current read position.
    pub fn position(&self) -> (p: usize)
        ensures
            p == self.pos,
    {
        self.pos
    }

    /// The total length of the underlying data.
    pub fn len(&self) -> (n: usize)
        ensures
            n == self.data@.len(),
    {
        self.data.len()
    }

    /// Read one byte and advance past it.
    pub fn read_u8(&mut self) -> (r: Result<u8, DecodeError>)
        ensures
            final(self).data@ == old(self).data@,
            (match r {
                Ok(v) => spec_read_u8(old(self).data@, old(self).pos as int)
                    == Ok::<(u8, int), DecodeError>((v, final(self).pos as int)),
                Err(e) => ({
                    &&& spec_read_u8(old(self).data@, old(self).pos as int)
                        == Err::<(u8, int), DecodeError>(e)
                    &&& final(self).pos == old(self).pos
                }),
            }),
    {
        if self.pos < self.data.len() {
            let b = self.data[self.pos];
            self.pos = self.pos + 1;
            Ok(b)
        } else {
            Err(DecodeError::UnexpectedEndOfBuffer { offset: self.pos })
        }
    }

    /// Read `n` raw bytes and advance past them.
    pub fn read_bytes(&mut self, n: usize) -> (r: Result<Vec<u8>, DecodeError>)
        ensures
            final(self).data@ == old(self).data@,
            (match r {
                Ok(v) => spec_read_bytes(old(self).data@, old(self).pos as int, n as int)
                    == Ok::<(Seq<u8>, int), DecodeError>((v@, final(self).pos as int)),
                Err(e) => ({
                    &&& spec_read_bytes(old(self).data@, old(self).pos as int, n as int)
                        == Err::<(Seq<u8>, int), DecodeError>(e)
                    &&& final(self).pos == old(self).pos
                }),
            }),
    {
        if self.pos <= self.data.len() && n <= self.data.len() - self.pos {
            let mut v: Vec<u8> = Vec::new();
            let mut i: usize = 0;
            while i < n
                invariant
                    i <= n,
                    self.pos + n <= usize::MAX,
                    self.pos + n <= self.data@.len(),
                    self == old(self),
                    v@ == self.data@.subrange(self.pos as int, self.pos as int + i as int),
                decreases n - i,
            {
                let b = self.data[self.pos + i];
                v.push(b);
                i = i + 1;
            }
            assert(v@ == self.data@.subrange(self.pos as int, self.pos as int + n as int));
            self.pos = self.pos + n;
            Ok(v)
        } else {
            Err(DecodeError::UnexpectedEndOfBuffer { offset: self.pos })
        }
    }

    /// Read a two-byte big-endian integer and advance past it.
    pub fn read_u16(&mut self) -> (r: Result<u16, DecodeError>)
        ensures
            final(self).data@ == old(self).data@,
            (match r {
                Ok(v) => spec_read_u16(old(self).data@, old(self).pos as int)
                    == Ok::<(u16, int), DecodeError>((v, final(self).pos as int)),
                Err(e) => ({
                    &&& spec_read_u16(old(self).data@, old(self).pos as int)
                        == Err::<(u16, int), DecodeError>(e)
                    &&& final(self).pos == old(self).pos
                }),
            }),
    {
        if self.pos < self.data.len() && self.data.len() - self.pos >= 2 {
            let b0 = self.data[self.pos];
            let b1 = self.data[self.pos + 1];
            proof {
                let b = old(self).data@.subrange(old(self).pos as int, old(self).pos as int + 2);
                assert(b[0] == old(self).data@[old(self).pos as int]);
                assert(b[1] == old(self).data@[old(self).pos as int + 1]);
            }
            self.pos = self.pos + 2;
            Ok((b0 as u16) * 0x100 + (b1 as u16))
        } else {
            Err(DecodeError::UnexpectedEndOfBuffer { offset: self.pos })
        }
    }

    /// Read a four-byte big-endian integer and advance past it.
    pub fn read_u32(&mut self) -> (r: Result<u32, DecodeError>)
        ensures
            final(self).data@ == old(self).data@,
            (match r {
                Ok(v) => spec_read_u32(old(self).data@, old(self).pos as int)
                    == Ok::<(u32, int), DecodeError>((v, final(self).pos as int)),
                Err(e) => ({
                    &&& spec_read_u32(old(self).data@, old(self).pos as int)
                        == Err::<(u32, int), DecodeError>(e)
                    &&& final(self).pos == old(self).pos
                }),
            }),
    {
        if self.pos < self.data.len() && self.data.len() - self.pos >= 4 {
            let b0 = self.data[self.pos];
            let b1 = self.data[self.pos + 1];
            let b2 = self.data[self.pos + 2];
            let b3 = self.data[self.pos + 3];
            proof {
                let b = old(self).data@.subrange(old(self).pos as int, old(self).pos as int + 4);
                assert(b[0] == old(self).data@[old(self).pos as int]);
                assert(b[1] == old(self).data@[old(self).pos as int + 1]);
                assert(b[2] == old(self).data@[old(self).pos as int + 2]);
                assert(b[3] == old(self).data@[old(self).pos as int + 3]);
            }
            self.pos = self.pos + 4;
            Ok((b0 as u32) * 0x100_0000 + (b1 as u32) * 0x1_0000 + (b2 as u32) * 0x100
                + (b3 as u32))
        } else {
            Err(DecodeError::UnexpectedEndOfBuffer { offset: self.pos })
        }
    }

    /// Read an eight-byte big-endian integer and advance past it.
    pub fn read_u64(&mut self) -> (r: Result<u64, DecodeError>)
        ensures
            final(self).data@ == old(self).data@,
            (match r {
                Ok(v) => spec_read_u64(old(self).data@, old(self).pos as int)
                    == Ok::<(u64, int), DecodeError>((v, final(self).pos as int)),
                Err(e) => ({
                    &&& spec_read_u64(old(self).data@, old(self).pos as int)
                        == Err::<(u64, int), DecodeError>(e)
                    &&& final(self).pos == old(self).pos
                }),
            }),
    {
        if self.pos < self.data.len() && self.data.len() - self.pos >= 8 {
            let b0 = self.data[self.pos];
            let b1 = self.data[self.pos + 1];
            let b2 = self.data[self.pos + 2];
            let b3 = self.data[self.pos + 3];
            let b4 = self.data[self.pos + 4];
            let b5 = self.data[self.pos + 5];
            let b6 = self.data[self.pos + 6];
            let b7 = self.data[self.pos + 7];
            proof {
                let b = old(self).data@.subrange(old(self).pos as int, old(self).pos as int + 8);
                assert(b[0] == old(self).data@[old(self).pos as int]);
                assert(b[1] == old(self).data@[old(self).pos as int + 1]);
                assert(b[2] == old(self).data@[old(self).pos as int + 2]);
                assert(b[3] == old(self).data@[old(self).pos as int + 3]);
                assert(b[4] == old(self).data@[old(self).pos as int + 4]);
                assert(b[5] == old(self).data@[old(self).pos as int + 5]);
                assert(b[6] == old(self).data@[old(self).pos as int + 6]);
                assert(b[7] == old(self).data@[old(self).pos as int + 7]);
            }
            self.pos = self.pos + 8;
            Ok((b0 as u64) * 0x100_0000_0000_0000 + (b1 as u64) * 0x1_0000_0000_0000
                + (b2 as u64) * 0x100_0000_0000 + (b3 as u64) * 0x1_0000_0000
                + (b4 as u64) * 0x100_0000 + (b5 as u64) * 0x1_0000 + (b6 as u64) * 0x100
                + (b7 as u64))
        } else {
            Err(DecodeError::UnexpectedEndOfBuffer { offset: self.pos })
        }
    }
}

} // verus!
