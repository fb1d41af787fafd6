use vstd::prelude::*;

use crate::error::DecodeError;

verus! {

/// The value of two bytes read as a big-endian integer.
pub open spec fn be_u16(b0: u8, b1: u8) -> int {
    b0 * 0x100 + b1
}

/// The value of four bytes read as a big-endian integer.
pub open spec fn be_u32(b0: u8, b1: u8, b2: u8, b3: u8) -> int {
    b0 * 0x1000000 + b1 * 0x10000 + b2 * 0x100 + b3
}

/// The value of a four-byte syncsafe integer: each byte gives its low seven
/// bits, the most significant byte first; the top bit of each byte is ignored.
pub open spec fn syncsafe_u32(b0: u8, b1: u8, b2: u8, b3: u8) -> int {
    (b0 % 0x80) * 0x200000 + (b1 % 0x80) * 0x4000 + (b2 % 0x80) * 0x80 + (b3 % 0x80)
}

/// The four syncsafe bytes that encode `v`, most significant first.
pub open spec fn syncsafe_bytes(v: u32) -> Seq<u8> {
    seq![
        ((v / 0x200000) % 0x80) as u8,
        ((v / 0x4000) % 0x80) as u8,
        ((v / 0x80) % 0x80) as u8,
        (v % 0x80) as u8,
    ]
}

/// Encoding a value below 2^28 as a syncsafe integer and reading it back gives
/// the value.
pub proof fn lemma_syncsafe_round_trip(v: u32)
    requires
        v <= 0x0FFF_FFFF,
    ensures
        syncsafe_bytes(v).len() == 4,
        syncsafe_u32(
            syncsafe_bytes(v)[0],
            syncsafe_bytes(v)[1],
            syncsafe_bytes(v)[2],
            syncsafe_bytes(v)[3],
        ) == v,
{
    let b = syncsafe_bytes(v);
    assert(b[0] == (v / 0x200000) % 0x80);
    assert(b[1] == (v / 0x4000) % 0x80);
    assert(b[2] == (v / 0x80) % 0x80);
    assert(b[3] == v % 0x80);
    assert(((v / 0x200000) % 0x80) * 0x200000 + ((v / 0x4000) % 0x80) * 0x4000
        + ((v / 0x80) % 0x80) * 0x80 + v % 0x80 == v) by (nonlinear_arith)
        requires
            v <= 0x0FFF_FFFF,
    {
        assert(v / 0x200000 < 0x80);
    }
}

/// Encodes `v` as four syncsafe bytes. Only the low 28 bits of `v` can be
/// represented; callers keep `v` below 2^28.
pub fn encode_syncsafe(v: u32) -> (r: Vec<u8>)
    requires
        v <= 0x0FFF_FFFF,
    ensures
        r@ == syncsafe_bytes(v),
{
    let mut r: Vec<u8> = Vec::new();
    r.push(((v / 0x200000) % 0x80) as u8);
    r.push(((v / 0x4000) % 0x80) as u8);
    r.push(((v / 0x80) % 0x80) as u8);
    r.push((v % 0x80) as u8);
    assert(r@ =~= syncsafe_bytes(v));
    r
}

/// Where a seek is measured from.
#[derive(Debug, Clone, Copy, PartialEq, Eq, Structural)]
pub enum SeekFrom {
    /// An absolute position from the start of the data.
    Start(u64),
    /// An offset from the current position.
    Current(i64),
}

/// A seekable cursor over bytes held in memory.
///
/// The position may lie past the end of the data, as a seek may put it there;
/// a read from such a position finds no bytes.
pub struct ByteReader {
    pub data: Vec<u8>,
    pub pos: u64,
}

/// The number of bytes left to read in `d` from position `p`.
pub open spec fn remaining(d: Seq<u8>, p: int) -> int {
    if p < d.len() {
        d.len() - p
    } else {
        0
    }
}

/// The `n` bytes of `d` that start at position `p`.
pub open spec fn bytes_at(d: Seq<u8>, p: int, n: int) -> Seq<u8> {
    Seq::new(n as nat, |i: int| d[p + i])
}

impl ByteReader {
    /// A cursor at the start of `data`.
    pub fn new(data: Vec<u8>) -> (r: ByteReader)
        ensures
            r.data@ == data@,
            r.pos == 0,
    {
        ByteReader { data, pos: 0 }
    }

    /// The number of bytes left after the cursor.
    pub fn remaining(&self) -> (r: usize)
        ensures
            r == remaining(self.data@, self.pos as int),
    {
        if self.pos < self.data.len() as u64 {
            self.data.len() - self.pos as usize
        } else {
            0
        }
    }

    /// Reads exactly `size` bytes. Where fewer are left, fails with
    /// `TruncatedInput` and consumes those that are left.
    pub fn read_bytes(&mut self, size: usize) -> (r: Result<Vec<u8>, DecodeError>)
        ensures
            final(self).data@ == old(self).data@,
            size <= remaining(old(self).data@, old(self).pos as int) ==> {
                &&& r is Ok
                &&& r->Ok_0@ == bytes_at(old(self).data@, old(self).pos as int, size as int)
                &&& final(self).pos == old(self).pos + size
            },
            size > remaining(old(self).data@, old(self).pos as int) ==> {
                &&& r == Err::<Vec<u8>, DecodeError>(DecodeError::TruncatedInput)
                &&& final(self).pos == if old(self).pos < old(self).data@.len() {
                    old(self).data@.len() as u64
                } else {
                    old(self).pos
                }
            },
    {
        let avail = self.remaining();
        if size > avail {
            if avail > 0 {
                self.pos = self.data.len() as u64;
            }
            return Err(DecodeError::TruncatedInput);
        }
        if size == 0 {
            assert(bytes_at(self.data@, self.pos as int, 0) =~= Seq::<u8>::empty());
            return Ok(Vec::new());
        }
        let len = self.data.len();
        assert(self.pos < len);
        let start = self.pos as usize;
        let mut out: Vec<u8> = Vec::with_capacity(size);
        let mut i: usize = 0;
        while i < size
            invariant
                len == self.data@.len(),
                start + size <= len,
                i <= size,
                start == self.pos,
                out@ == bytes_at(self.data@, start as int, i as int),
            decreases size - i,
        {
            out.push(self.data[start + i]);
            i = i + 1;
            assert(out@ =~= bytes_at(self.data@, start as int, i as int));
        }
        self.pos = self.pos + size as u64;
        Ok(out)
    }

    /// Reads one byte.
    pub fn read_u8(&mut self) -> (r: Result<u8, DecodeError>)
        ensures
            final(self).data@ == old(self).data@,
            1 <= remaining(old(self).data@, old(self).pos as int) ==> {
                &&& r == Ok::<u8, DecodeError>(old(self).data@[old(self).pos as int])
                &&& final(self).pos == old(self).pos + 1
            },
            1 > remaining(old(self).data@, old(self).pos as int) ==> r == Err::<
                u8,
                DecodeError,
            >(DecodeError::TruncatedInput),
    {
        let b = self.read_bytes(1)?;
        Ok(b[0])
    }

    /// Reads a big-endian 16-bit integer.
    pub fn read_u16(&mut self) -> (r: Result<u16, DecodeError>)
        ensures
            final(self).data@ == old(self).data@,
            2 <= remaining(old(self).data@, old(self).pos as int) ==> {
                let d = old(self).data@;
                let p = old(self).pos as int;
                &&& r is Ok
                &&& r->Ok_0 == be_u16(d[p], d[p + 1])
                &&& final(self).pos == old(self).pos + 2
            },
            2 > remaining(old(self).data@, old(self).pos as int) ==> r == Err::<
                u16,
                DecodeError,
            >(DecodeError::TruncatedInput),
    {
        let b = self.read_bytes(2)?;
        Ok((b[0] as u16) * 0x100 + b[1] as u16)
    }

    /// Reads a big-endian 32-bit integer.
    pub fn read_u32(&mut self) -> (r: Result<u32, DecodeError>)
        ensures
            final(self).data@ == old(self).data@,
            4 <= remaining(old(self).data@, old(self).pos as int) ==> {
                let d = old(self).data@;
                let p = old(self).pos as int;
                &&& r is Ok
                &&& r->Ok_0 == be_u32(d[p], d[p + 1], d[p + 2], d[p + 3])
                &&& final(self).pos == old(self).pos + 4
            },
            4 > remaining(old(self).data@, old(self).pos as int) ==> r == Err::<
                u32,
                DecodeError,
            >(DecodeError::TruncatedInput),
    {
        let b = self.read_bytes(4)?;
        Ok((b[0] as u32) * 0x1000000 + (b[1] as u32) * 0x10000 + (b[2] as u32) * 0x100
            + b[3] as u32)
    }

    /// Reads a four-byte syncsafe integer: a 28-bit value, seven bits per byte.
    pub fn read_u32_syncsafe(&mut self) -> (r: Result<u32, DecodeError>)
        ensures
            final(self).data@ == old(self).data@,
            4 <= remaining(old(self).data@, old(self).pos as int) ==> {
                let d = old(self).data@;
                let p = old(self).pos as int;
                &&& r is Ok
                &&& r->Ok_0 == syncsafe_u32(d[p], d[p + 1], d[p + 2], d[p + 3])
                &&& final(self).pos == old(self).pos + 4
            },
            4 > remaining(old(self).data@, old(self).pos as int) ==> r == Err::<
                u32,
                DecodeError,
            >(DecodeError::TruncatedInput),
    {
        let b = self.read_bytes(4)?;
        let (b0, b1, b2, b3) = (b[0], b[1], b[2], b[3]);
        assert(b0 & 0x7f == b0 % 0x80) by (bit_vector);
        assert(b1 & 0x7f == b1 % 0x80) by (bit_vector);
        assert(b2 & 0x7f == b2 % 0x80) by (bit_vector);
        assert(b3 & 0x7f == b3 % 0x80) by (bit_vector);
        Ok(((b0 & 0x7f) as u32) * 0x200000 + ((b1 & 0x7f) as u32) * 0x4000 + ((b2 & 0x7f) as u32)
            * 0x80 + (b3 & 0x7f) as u32)
    }

    /// Moves the cursor. Fails with `SeekOutOfRange`, leaving the cursor where it
    /// was, where the target lies before the start of the data or past the
    /// largest position a cursor can hold. The new position is returned.
    pub fn seek(&mut self, mode: SeekFrom) -> (r: Result<u64, DecodeError>)
        ensures
            final(self).data@ == old(self).data@,
            ({
                let target: int = match mode {
                    SeekFrom::Start(n) => n as int,
                    SeekFrom::Current(off) => old(self).pos + off,
                };
                if 0 <= target <= u64::MAX {
                    r == Ok::<u64, DecodeError>(target as u64) && final(self).pos == target
                } else {
                    r == Err::<u64, DecodeError>(DecodeError::SeekOutOfRange) && final(self).pos
                        == old(self).pos
                }
            }),
    {
        match mode {
            SeekFrom::Start(n) => {
                self.pos = n;
                Ok(n)
            },
            SeekFrom::Current(off) => {
                if off < 0 {
                    let back: u64 = if off == i64::MIN {
                        0x8000_0000_0000_0000u64
                    } else {
                        (-off) as u64
                    };
                    if back > self.pos {
                        return Err(DecodeError::SeekOutOfRange);
                    }
                    self.pos = self.pos - back;
                } else {
                    let fwd = off as u64;
                    if fwd > u64::MAX - self.pos {
                        return Err(DecodeError::SeekOutOfRange);
                    }
                    self.pos = self.pos + fwd;
                }
                Ok(self.pos)
            },
        }
    }
}

} // verus!
