//! A byte cursor for decoding big-endian on-disk structures.

use vstd::prelude::*;
use vstd::arithmetic::div_mod::{lemma_fundamental_div_mod, lemma_mod_multiples_basic};

verus! {

/// Why a decode failed.
#[derive(PartialEq, Eq, Structural, Debug, Clone, Copy)]
pub enum ReadError {
    /// The data ended before the value did.
    UnexpectedEof,
    /// The bytes do not form a valid value.
    InvalidData,
    /// A looked-up item does not exist.
    NotFound,
}

/// Big-endian 16-bit value of two bytes.
pub open spec fn be16(b0: u8, b1: u8) -> u16 {
    (b0 as int * 0x100 + b1 as int) as u16
}

/// Big-endian 24-bit value of three bytes.
pub open spec fn be24(b0: u8, b1: u8, b2: u8) -> u32 {
    (b0 as int * 0x1_0000 + b1 as int * 0x100 + b2 as int) as u32
}

/// Big-endian 32-bit value of four bytes.
pub open spec fn be32(b0: u8, b1: u8, b2: u8, b3: u8) -> u32 {
    (b0 as int * 0x100_0000 + b1 as int * 0x1_0000 + b2 as int * 0x100 + b3 as int) as u32
}

/// `len` rounded up to the next multiple of `wordlen`.
pub open spec fn padded_spec(len: int, wordlen: int) -> int {
    if len % wordlen == 0 {
        len
    } else {
        len + wordlen - len % wordlen
    }
}

/// Rounds `len` up to a multiple of `wordlen`.
pub fn pad_to_wordlen(len: u64, wordlen: u64) -> (r: u64)
    requires
        wordlen >= 1,
        len + wordlen - 1 <= u64::MAX,
    ensures
        r == padded_spec(len as int, wordlen as int),
        r % wordlen == 0,
        len <= r < len + wordlen,
{
    let rem = len % wordlen;
    proof {
        let q = len as int / wordlen as int;
        lemma_fundamental_div_mod(len as int, wordlen as int);
        lemma_mod_multiples_basic(q, wordlen as int);
        lemma_mod_multiples_basic(q + 1, wordlen as int);
        assert(wordlen * q == q * wordlen) by (nonlinear_arith);
        assert(wordlen * q + wordlen == (q + 1) * wordlen) by (nonlinear_arith);
    }
    if rem == 0 {
        len
    } else {
        len + (wordlen - rem)
    }
}

/// Bytes with a read position and a stack of saved end positions.
pub struct SerialReadStorage {
    block: Vec<u8>,
    pos: u64,
    len_stack: Vec<u64>,
}

/// A value that can be decoded from a `SerialReadStorage`.
pub trait SerialRead: Sized {
    fn read(rdr: &mut SerialReadStorage) -> (r: Result<Self, ReadError>)
        ensures
            final(rdr).bytes() == old(rdr).bytes(),
    ;
}

impl SerialReadStorage {
    /// The bytes held.
    pub closed spec fn bytes(&self) -> Seq<u8> {
        self.block@
    }

    /// The read position; it may lie past the end.
    pub closed spec fn position(&self) -> u64 {
        self.pos
    }

    pub open spec fn cursor(&self) -> int {
        self.position() as int
    }

    /// End positions saved by `length_start`, most recent last.
    pub closed spec fn marks(&self) -> Seq<u64> {
        self.len_stack@
    }

    /// Whether `n` bytes are left at the position.
    pub open spec fn has(&self, n: int) -> bool {
        self.cursor() + n <= self.bytes().len()
    }

    /// The byte `k` places after the position.
    pub open spec fn peek(&self, k: int) -> u8 {
        self.bytes()[self.cursor() + k]
    }

    /// The reader after the position moved by `n`, all else equal.
    pub open spec fn advanced(&self, old: &SerialReadStorage, n: int) -> bool {
        &&& self.bytes() == old.bytes()
        &&& self.marks() == old.marks()
        &&& self.cursor() == old.cursor() + n
    }

    pub fn from(vec: Vec<u8>) -> (r: SerialReadStorage)
        ensures
            r.bytes() == vec@,
            r.cursor() == 0,
            r.marks().len() == 0,
    {
        SerialReadStorage { block: vec, pos: 0, len_stack: Vec::new() }
    }

    pub fn seek(&mut self, offset: u64)
        ensures
            final(self).bytes() == old(self).bytes(),
            final(self).marks() == old(self).marks(),
            final(self).cursor() == offset,
    {
        self.pos = offset;
    }

    pub fn pos(&self) -> (r: u64)
        ensures
            r == self.cursor(),
    {
        self.pos
    }

    pub fn size(&self) -> (r: u64)
        ensures
            r == self.bytes().len(),
    {
        self.block.len() as u64
    }

    /// Saves the position `len` bytes ahead, for `length_end` to return to.
    pub fn length_start(&mut self, len: u64)
        requires
            old(self).cursor() + len <= u64::MAX,
        ensures
            final(self).bytes() == old(self).bytes(),
            final(self).cursor() == old(self).cursor(),
            final(self).marks() == old(self).marks().push((old(self).cursor() + len) as u64),
    {
        let end = self.pos + len;
        self.len_stack.push(end);
    }

    /// Moves to the most recently saved end position and forgets it.
    pub fn length_end(&mut self)
        requires
            old(self).marks().len() > 0,
        ensures
            final(self).bytes() == old(self).bytes(),
            final(self).cursor() == old(self).marks().last(),
            final(self).marks() == old(self).marks().drop_last(),
    {
        let end = self.len_stack.pop().unwrap();
        self.pos = end;
    }

    /// Moves the position up to the next multiple of `wordlength`.
    pub fn align(&mut self, wordlength: u64)
        requires
            wordlength >= 1,
            old(self).cursor() + wordlength - 1 <= u64::MAX,
        ensures
            final(self).bytes() == old(self).bytes(),
            final(self).marks() == old(self).marks(),
            final(self).cursor() == padded_spec(old(self).cursor(), wordlength as int),
    {
        self.pos = pad_to_wordlen(self.pos, wordlength);
    }

    /// Skips `bytes` bytes, backwards when negative.
    pub fn pad(&mut self, bytes: i64)
        requires
            0 <= old(self).cursor() + bytes <= u64::MAX,
        ensures
            final(self).advanced(old(self), bytes as int),
    {
        self.pos = (self.pos as i128 + bytes as i128) as u64;
    }

    pub fn read_u8(&mut self) -> (r: Result<u8, ReadError>)
        ensures
            old(self).has(1) ==> r == Ok::<u8, ReadError>(old(self).peek(0)) && final(self).advanced(old(self), 1),
            !old(self).has(1) ==> r == Err::<u8, ReadError>(ReadError::UnexpectedEof) && *final(self) == *old(self),
    {
        if self.pos < self.block.len() as u64 {
            let b = self.block[self.pos as usize];
            self.pos = self.pos + 1;
            Ok(b)
        } else {
            Err(ReadError::UnexpectedEof)
        }
    }

    pub fn read_i8(&mut self) -> (r: Result<i8, ReadError>)
        ensures
            old(self).has(1) ==> r == Ok::<i8, ReadError>(old(self).peek(0) as i8) && final(self).advanced(old(self), 1),
            !old(self).has(1) ==> r == Err::<i8, ReadError>(ReadError::UnexpectedEof) && *final(self) == *old(self),
    {
        match self.read_u8() {
            Ok(b) => Ok(b as i8),
            Err(e) => Err(e),
        }
    }

    pub fn read_u16(&mut self) -> (r: Result<u16, ReadError>)
        ensures
            old(self).has(2) ==> r == Ok::<u16, ReadError>(be16(old(self).peek(0), old(self).peek(1)))
                && final(self).advanced(old(self), 2),
            !old(self).has(2) ==> r == Err::<u16, ReadError>(ReadError::UnexpectedEof) && *final(self) == *old(self),
    {
        if self.pos < self.block.len() as u64 && self.block.len() as u64 - self.pos >= 2 {
            let p = self.pos as usize;
            let v = (self.block[p] as u16) * 0x100 + (self.block[p + 1] as u16);
            self.pos = self.pos + 2;
            Ok(v)
        } else {
            Err(ReadError::UnexpectedEof)
        }
    }

    pub fn read_i16(&mut self) -> (r: Result<i16, ReadError>)
        ensures
            old(self).has(2) ==> r == Ok::<i16, ReadError>(be16(old(self).peek(0), old(self).peek(1)) as i16)
                && final(self).advanced(old(self), 2),
            !old(self).has(2) ==> r == Err::<i16, ReadError>(ReadError::UnexpectedEof) && *final(self) == *old(self),
    {
        match self.read_u16() {
            Ok(v) => Ok(v as i16),
            Err(e) => Err(e),
        }
    }

    pub fn read_u24(&mut self) -> (r: Result<u32, ReadError>)
        ensures
            old(self).has(3) ==> r == Ok::<u32, ReadError>(be24(old(self).peek(0), old(self).peek(1), old(self).peek(2)))
                && final(self).advanced(old(self), 3),
            !old(self).has(3) ==> r == Err::<u32, ReadError>(ReadError::UnexpectedEof) && *final(self) == *old(self),
    {
        if self.pos < self.block.len() as u64 && self.block.len() as u64 - self.pos >= 3 {
            let p = self.pos as usize;
            let v = (self.block[p] as u32) * 0x1_0000 + (self.block[p + 1] as u32) * 0x100
                + (self.block[p + 2] as u32);
            self.pos = self.pos + 3;
            Ok(v)
        } else {
            Err(ReadError::UnexpectedEof)
        }
    }

    pub fn read_u32(&mut self) -> (r: Result<u32, ReadError>)
        ensures
            old(self).has(4) ==> r == Ok::<u32, ReadError>(be32(old(self).peek(0), old(self).peek(1), old(self).peek(2), old(self).peek(3)))
                && final(self).advanced(old(self), 4),
            !old(self).has(4) ==> r == Err::<u32, ReadError>(ReadError::UnexpectedEof) && *final(self) == *old(self),
    {
        if self.pos < self.block.len() as u64 && self.block.len() as u64 - self.pos >= 4 {
            let p = self.pos as usize;
            let v = (self.block[p] as u32) * 0x100_0000 + (self.block[p + 1] as u32) * 0x1_0000
                + (self.block[p + 2] as u32) * 0x100 + (self.block[p + 3] as u32);
            self.pos = self.pos + 4;
            Ok(v)
        } else {
            Err(ReadError::UnexpectedEof)
        }
    }

    pub fn read_i32(&mut self) -> (r: Result<i32, ReadError>)
        ensures
            old(self).has(4) ==> r == Ok::<i32, ReadError>(be32(old(self).peek(0), old(self).peek(1), old(self).peek(2), old(self).peek(3)) as i32)
                && final(self).advanced(old(self), 4),
            !old(self).has(4) ==> r == Err::<i32, ReadError>(ReadError::UnexpectedEof) && *final(self) == *old(self),
    {
        match self.read_u32() {
            Ok(v) => Ok(v as i32),
            Err(e) => Err(e),
        }
    }

    /// A new reader over `len` bytes from `offset`.
    pub fn sub_reader(&self, offset: u64, len: u64) -> (r: SerialReadStorage)
        requires
            offset + len <= self.bytes().len(),
        ensures
            r.bytes() == self.bytes().subrange(offset as int, offset + len),
            r.cursor() == 0,
            r.marks().len() == 0,
    {
        let n = self.block.len();
        assert(offset + len <= n);
        let s = vstd::slice::slice_subrange(
            self.block.as_slice(),
            offset as usize,
            (offset + len) as usize,
        );
        SerialReadStorage::from(vstd::slice::slice_to_vec(s))
    }

    /// The bytes from the position to the end.
    pub fn remaining(&self) -> (r: Vec<u8>)
        ensures
            self.cursor() <= self.bytes().len() ==> r@ == self.bytes().subrange(self.cursor(), self.bytes().len() as int),
            self.cursor() > self.bytes().len() ==> r@.len() == 0,
    {
        if self.pos < self.block.len() as u64 {
            vstd::slice::slice_to_vec(
                vstd::slice::slice_subrange(self.block.as_slice(), self.pos as usize, self.block.len()),
            )
        } else {
            Vec::new()
        }
    }

    /// Appends the bytes of `other`.
    pub fn extend(&mut self, other: SerialReadStorage)
        ensures
            final(self).bytes() == old(self).bytes() + other.bytes(),
            final(self).cursor() == old(self).cursor(),
            final(self).marks() == old(self).marks(),
    {
        let mut o = other.block;
        self.block.append(&mut o);
    }

    pub fn to_vec(self) -> (r: Vec<u8>)
        ensures
            r@ == self.bytes(),
    {
        self.block
    }
}

impl SerialRead for u8 {
    fn read(rdr: &mut SerialReadStorage) -> (r: Result<u8, ReadError>) {
        rdr.read_u8()
    }
}

impl SerialRead for i8 {
    fn read(rdr: &mut SerialReadStorage) -> (r: Result<i8, ReadError>) {
        rdr.read_i8()
    }
}

impl SerialRead for u16 {
    fn read(rdr: &mut SerialReadStorage) -> (r: Result<u16, ReadError>) {
        rdr.read_u16()
    }
}

impl SerialRead for i16 {
    fn read(rdr: &mut SerialReadStorage) -> (r: Result<i16, ReadError>) {
        rdr.read_i16()
    }
}

impl SerialRead for u32 {
    fn read(rdr: &mut SerialReadStorage) -> (r: Result<u32, ReadError>) {
        rdr.read_u32()
    }
}

impl SerialRead for i32 {
    fn read(rdr: &mut SerialReadStorage) -> (r: Result<i32, ReadError>) {
        rdr.read_i32()
    }
}

} // verus!
