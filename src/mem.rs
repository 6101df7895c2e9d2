//! Memory handlers addressed by offset: plain RAM and read-only ROM. Reads
//! past the end of the content yield all-ones bytes; a multi-byte access is
//! big-endian.

use vstd::prelude::*;

verus! {

/// Whether `size` is the width in bytes of a byte, word or long access.
pub open spec fn valid_size(size: u32) -> bool {
    size == 1 || size == 2 || size == 4
}

/// The value with all bits of an access of `size` bytes set.
pub open spec fn ones(size: u32) -> u32 {
    if size == 1 {
        0xff
    } else if size == 2 {
        0xffff
    } else {
        0xffff_ffff
    }
}

/// The byte at `off`, or all-ones past the end.
pub open spec fn byte_at(c: Seq<u8>, off: int) -> u8 {
    if 0 <= off < c.len() {
        c[off]
    } else {
        0xff
    }
}

/// The big-endian value of an access of `size` bytes at `off`, where `byte`
/// gives each byte.
pub open spec fn combine(byte: spec_fn(int) -> u8, off: int, size: u32) -> u32 {
    if size == 1 {
        byte(off) as u32
    } else if size == 2 {
        ((byte(off) as u32) << 8u32) | (byte(off + 1) as u32)
    } else {
        ((byte(off) as u32) << 24u32) | ((byte(off + 1) as u32) << 16u32) | ((byte(off + 2) as u32)
            << 8u32) | (byte(off + 3) as u32)
    }
}

/// Byte `k` (from the most significant) of the `size`-byte value `v`.
pub open spec fn byte_of(v: u32, size: u32, k: int) -> u8 {
    (v >> (8 * (size - 1 - k)) as u32) as u8
}

/// `c` after a big-endian store of `v` as `size` bytes at `off`; bytes that
/// fall past the end are dropped.
pub open spec fn store(c: Seq<u8>, off: int, size: u32, v: u32) -> Seq<u8> {
    Seq::new(c.len(), |i: int| if off <= i < off + size { byte_of(v, size, i - off) } else { c[i] })
}

/// What a load of `size` bytes at `off` reads from `c`.
pub open spec fn load(c: Seq<u8>, off: int, size: u32) -> u32 {
    combine(|i: int| byte_at(c, i), off, size)
}

/// A load right after a store of the same width, fully inside the content,
/// gives back the stored value cut to that width.
pub proof fn lemma_load_store(c: Seq<u8>, off: int, size: u32, v: u32)
    requires
        valid_size(size),
        0 <= off,
        off + size <= c.len(),
    ensures
        load(store(c, off, size, v), off, size) == v & ones(size),
{
    let s = store(c, off, size, v);
    if size == 1 {
        assert(s[off] == byte_of(v, 1, 0));
        assert((((v >> 0u32) as u8) as u32) == v & 0xff) by (bit_vector);
    } else if size == 2 {
        assert(s[off] == byte_of(v, 2, 0));
        assert(s[off + 1] == byte_of(v, 2, 1));
        assert(((((v >> 8u32) as u8) as u32) << 8u32) | (((v >> 0u32) as u8) as u32) == v & 0xffff)
            by (bit_vector);
    } else {
        assert(s[off] == byte_of(v, 4, 0));
        assert(s[off + 1] == byte_of(v, 4, 1));
        assert(s[off + 2] == byte_of(v, 4, 2));
        assert(s[off + 3] == byte_of(v, 4, 3));
        assert(((((v >> 24u32) as u8) as u32) << 24u32) | ((((v >> 16u32) as u8) as u32) << 16u32)
            | ((((v >> 8u32) as u8) as u32) << 8u32) | (((v >> 0u32) as u8) as u32) == v
            & 0xffff_ffff) by (bit_vector);
    }
}

/// Reads `size` bytes of `content` at `off`, big-endian.
fn load_bytes(content: &Vec<u8>, off: u32, size: u32) -> (r: u32)
    requires
        valid_size(size),
    ensures
        r == load(content@, off as int, size),
{
    let len = content.len();
    let b0: u8 = if (off as usize) < len { content[off as usize] } else { 0xff };
    if size == 1 {
        return b0 as u32;
    }
    let o1 = off as u64 + 1;
    let b1: u8 = if o1 < len as u64 { content[o1 as usize] } else { 0xff };
    if size == 2 {
        return ((b0 as u32) << 8u32) | (b1 as u32);
    }
    let o2 = off as u64 + 2;
    let o3 = off as u64 + 3;
    let b2: u8 = if o2 < len as u64 { content[o2 as usize] } else { 0xff };
    let b3: u8 = if o3 < len as u64 { content[o3 as usize] } else { 0xff };
    ((b0 as u32) << 24u32) | ((b1 as u32) << 16u32) | ((b2 as u32) << 8u32) | (b3 as u32)
}

/// Stores byte `k` of the `size`-byte value `v` at `off + k`, if that lies
/// inside the content.
fn store_byte(content: &mut Vec<u8>, off: u32, size: u32, k: u32, v: u32)
    requires
        valid_size(size),
        k < size,
    ensures
        final(content)@ == Seq::new(
            old(content)@.len(),
            |i: int| if i == off + k { byte_of(v, size, k as int) } else { old(content)@[i] },
        ),
{
    let idx = off as u64 + k as u64;
    let b = (v >> (8 * (size - 1 - k))) as u8;
    if idx < content.len() as u64 {
        content.set(idx as usize, b);
    }
    assert(final(content)@ =~= Seq::new(
        old(content)@.len(),
        |i: int| if i == off + k { byte_of(v, size, k as int) } else { old(content)@[i] },
    ));
}

/// Stores `v` as `size` bytes at `off`, big-endian.
fn store_bytes(content: &mut Vec<u8>, off: u32, size: u32, v: u32)
    requires
        valid_size(size),
    ensures
        final(content)@ == store(old(content)@, off as int, size, v),
{
    let ghost c0 = content@;
    let mut k: u32 = 0;
    while k < size
        invariant
            valid_size(size),
            k <= size,
            content@ == Seq::new(
                c0.len(),
                |i: int| if off <= i < off + k { byte_of(v, size, i - off) } else { c0[i] },
            ),
        decreases size - k,
    {
        store_byte(content, off, size, k, v);
        k += 1;
        assert(content@ =~= Seq::new(
            c0.len(),
            |i: int| if off <= i < off + k { byte_of(v, size, i - off) } else { c0[i] },
        ));
    }
    assert(content@ =~= store(c0, off as int, size, v));
}

/// Writable memory, addressed from offset zero.
pub struct RAM {
    content: Vec<u8>,
}

impl RAM {
    pub closed spec fn bytes(&self) -> Seq<u8> {
        self.content@
    }

    /// `size` bytes of zeros.
    pub fn new(size: usize) -> (r: RAM)
        ensures
            r.bytes() == Seq::new(size as nat, |i: int| 0u8),
    {
        let content = vec![0u8; size];
        assert(content@ =~= Seq::new(size as nat, |i: int| 0u8));
        RAM { content }
    }

    pub fn from(vec: Vec<u8>) -> (r: RAM)
        ensures
            r.bytes() == vec@,
    {
        RAM { content: vec }
    }

    pub fn read(&self, offset: u32, size: u32) -> (r: u32)
        requires
            valid_size(size),
        ensures
            r == load(self.bytes(), offset as int, size),
    {
        load_bytes(&self.content, offset, size)
    }

    pub fn write(&mut self, offset: u32, size: u32, value: u32)
        requires
            valid_size(size),
        ensures
            final(self).bytes() == store(old(self).bytes(), offset as int, size, value),
    {
        store_bytes(&mut self.content, offset, size, value);
    }
}

/// Read-only memory; writes are ignored.
pub struct ROM {
    content: Vec<u8>,
}

impl ROM {
    pub closed spec fn bytes(&self) -> Seq<u8> {
        self.content@
    }

    pub fn from(vec: Vec<u8>) -> (r: ROM)
        ensures
            r.bytes() == vec@,
    {
        ROM { content: vec }
    }

    pub fn read(&self, offset: u32, size: u32) -> (r: u32)
        requires
            valid_size(size),
        ensures
            r == load(self.bytes(), offset as int, size),
    {
        load_bytes(&self.content, offset, size)
    }
}

} // verus!
