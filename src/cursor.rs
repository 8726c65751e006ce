//! A read cursor over an owned byte buffer, with big-endian reads.

use vstd::prelude::*;

verus! {

/// The big-endian value of two bytes.
pub open spec fn be16(hi: u8, lo: u8) -> u16 {
    (hi as int * 0x100 + lo as int) as u16
}

/// The big-endian value of four bytes.
pub open spec fn be32(b0: u8, b1: u8, b2: u8, b3: u8) -> u32 {
    (b0 as int * 0x100_0000 + b1 as int * 0x1_0000 + b2 as int * 0x100 + b3 as int) as u32
}

/// The big-endian 16-bit word stored at `at` in `s`.
pub open spec fn be16_at(s: Seq<u8>, at: int) -> u16 {
    be16(s[at], s[at + 1])
}

/// The big-endian 32-bit word stored at `at` in `s`.
pub open spec fn be32_at(s: Seq<u8>, at: int) -> u32 {
    be32(s[at], s[at + 1], s[at + 2], s[at + 3])
}

/// A read was asked for more bytes than remain after the cursor's position.
#[derive(Debug, PartialEq, Eq, Structural, Clone, Copy)]
pub enum ReadError {
    UnexpectedEof,
}

/// An owned byte buffer with a read position, read front to back.
///
/// The position may stand anywhere, also past the end; a read that would run
/// past the end fails and leaves the cursor as it was.
#[derive(Debug)]
pub struct ByteCursor {
    pub data: Vec<u8>,
    pub pos: usize,
}

impl ByteCursor {
    /// `n` more bytes can be read from the current position.
    pub open spec fn can_read(&self, n: int) -> bool {
        self.pos + n <= self.data@.len()
    }

    /// The same buffer with the position moved to `pos`.
    pub open spec fn at(&self, pos: int) -> ByteCursor {
        ByteCursor { data: self.data, pos: pos as usize }
    }

    /// Wraps `data`, positioned at its start.
    pub fn new(data: Vec<u8>) -> (r: ByteCursor)
        ensures
            r.data@ == data@,
            r.pos == 0,
    {
        ByteCursor { data, pos: 0 }
    }

    /// The empty buffer.
    pub fn empty() -> (r: ByteCursor)
        ensures
            r.data@.len() == 0,
            r.pos == 0,
    {
        ByteCursor { data: Vec::new(), pos: 0 }
    }

    pub fn position(&self) -> (r: usize)
        ensures
            r == self.pos,
    {
        self.pos
    }

    pub fn len(&self) -> (r: usize)
        ensures
            r == self.data@.len(),
    {
        self.data.len()
    }

    pub fn get_ref(&self) -> (r: &Vec<u8>)
        ensures
            r@ == self.data@,
    {
        &self.data
    }

    pub fn set_position(&mut self, pos: usize)
        ensures
            final(self).data@ == old(self).data@,
            final(self).pos == pos,
    {
        self.pos = pos;
    }

    /// Moves the position `n` bytes on (stopping at the largest position).
    pub fn skip(&mut self, n: usize)
        ensures
            final(self).data@ == old(self).data@,
            final(self).pos == if old(self).pos + n <= usize::MAX {
                old(self).pos + n
            } else {
                usize::MAX as int
            },
    {
        if self.pos <= usize::MAX - n {
            self.pos = self.pos + n;
        } else {
            self.pos = usize::MAX;
        }
    }

    pub fn read_u8(&mut self) -> (r: Result<u8, ReadError>)
        ensures
            final(self).data@ == old(self).data@,
            old(self).can_read(1) ==> r == Ok::<u8, ReadError>(old(self).data@[old(self).pos as int])
                && final(self).pos == old(self).pos + 1,
            !old(self).can_read(1) ==> r == Err::<u8, ReadError>(ReadError::UnexpectedEof)
                && final(self).pos == old(self).pos,
    {
        if self.pos < self.data.len() {
            let b = self.data[self.pos];
            self.pos = self.pos + 1;
            Ok(b)
        } else {
            Err(ReadError::UnexpectedEof)
        }
    }

    pub fn read_u16(&mut self) -> (r: Result<u16, ReadError>)
        ensures
            final(self).data@ == old(self).data@,
            old(self).can_read(2) ==> r == Ok::<u16, ReadError>(
                be16_at(old(self).data@, old(self).pos as int),
            ) && final(self).pos == old(self).pos + 2,
            !old(self).can_read(2) ==> r == Err::<u16, ReadError>(ReadError::UnexpectedEof)
                && final(self).pos == old(self).pos,
    {
        if self.pos < self.data.len() && self.data.len() - self.pos >= 2 {
            let hi = self.data[self.pos];
            let lo = self.data[self.pos + 1];
            self.pos = self.pos + 2;
            Ok(hi as u16 * 0x100 + lo as u16)
        } else {
            Err(ReadError::UnexpectedEof)
        }
    }

    pub fn read_u32(&mut self) -> (r: Result<u32, ReadError>)
        ensures
            final(self).data@ == old(self).data@,
            old(self).can_read(4) ==> r == Ok::<u32, ReadError>(
                be32_at(old(self).data@, old(self).pos as int),
            ) && final(self).pos == old(self).pos + 4,
            !old(self).can_read(4) ==> r == Err::<u32, ReadError>(ReadError::UnexpectedEof)
                && final(self).pos == old(self).pos,
    {
        if self.pos < self.data.len() && self.data.len() - self.pos >= 4 {
            let b0 = self.data[self.pos];
            let b1 = self.data[self.pos + 1];
            let b2 = self.data[self.pos + 2];
            let b3 = self.data[self.pos + 3];
            self.pos = self.pos + 4;
            Ok(b0 as u32 * 0x100_0000 + b1 as u32 * 0x1_0000 + b2 as u32 * 0x100 + b3 as u32)
        } else {
            Err(ReadError::UnexpectedEof)
        }
    }
}

} // verus!
