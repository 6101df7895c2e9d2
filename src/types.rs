//! Small value types of the legacy OS: four-character codes, length-prefixed
//! strings and timestamps.

use vstd::prelude::*;
use crate::serialization::{SerialReadStorage, SerialRead, ReadError};

verus! {

/// A four-character code, as used for resource types and file types.
#[derive(Debug, Clone, Copy)]
pub struct OSType(pub [u8; 4]);

impl PartialEq for OSType {
    fn eq(&self, other: &OSType) -> (r: bool) {
        let r = self.0[0] == other.0[0] && self.0[1] == other.0[1] && self.0[2] == other.0[2]
            && self.0[3] == other.0[3];
        assert(r ==> self.0@ =~= other.0@);
        r
    }
}

impl vstd::std_specs::cmp::PartialEqSpecImpl for OSType {
    open spec fn obeys_eq_spec() -> bool {
        true
    }

    open spec fn eq_spec(&self, other: &OSType) -> bool {
        self.0@ == other.0@
    }
}

/// The four bytes of `v`, most significant first.
pub open spec fn u32_bytes(v: u32) -> Seq<u8> {
    seq![(v >> 24u32) as u8, (v >> 16u32) as u8, (v >> 8u32) as u8, v as u8]
}

/// The big-endian value of four bytes.
pub open spec fn bytes_u32(b: Seq<u8>) -> u32 {
    ((b[0] as u32) << 24u32) | ((b[1] as u32) << 16u32) | ((b[2] as u32) << 8u32) | (b[3] as u32)
}

impl OSType {
    /// The code as a big-endian 32-bit value.
    pub fn as_u32(&self) -> (r: u32)
        ensures
            r == bytes_u32(self.0@),
    {
        let a = self.0[0];
        let b = self.0[1];
        let c = self.0[2];
        let d = self.0[3];
        ((a as u32) << 24u32) | ((b as u32) << 16u32) | ((c as u32) << 8u32) | (d as u32)
    }

    /// The code whose big-endian value is `v`.
    pub fn from_u32(v: u32) -> (r: OSType)
        ensures
            r.0@ == u32_bytes(v),
            bytes_u32(r.0@) == v,
    {
        let r = OSType([(v >> 24u32) as u8, (v >> 16u32) as u8, (v >> 8u32) as u8, v as u8]);
        assert(r.0@ =~= u32_bytes(v));
        assert((((((v >> 24u32) as u8) as u32) << 24u32) | ((((v >> 16u32) as u8) as u32) << 16u32)
            | ((((v >> 8u32) as u8) as u32) << 8u32) | ((v as u8) as u32)) == v) by (bit_vector);
        r
    }

    /// Reads the four bytes of a code.
    pub fn read(rdr: &mut SerialReadStorage) -> (r: Result<OSType, ReadError>)
        ensures
            old(rdr).has(4) ==> (r matches Ok(t) && t.0@ == old(rdr).bytes().subrange(
                old(rdr).cursor(),
                old(rdr).cursor() + 4,
            ) && final(rdr).advanced(old(rdr), 4)),
            !old(rdr).has(4) ==> r is Err,
            final(rdr).bytes() == old(rdr).bytes(),
    {
        if rdr.pos() < rdr.size() && rdr.size() - rdr.pos() >= 4 {
            let a = rdr.read_u8().unwrap();
            let b = rdr.read_u8().unwrap();
            let c = rdr.read_u8().unwrap();
            let d = rdr.read_u8().unwrap();
            let t = OSType([a, b, c, d]);
            assert(t.0@ =~= old(rdr).bytes().subrange(old(rdr).cursor(), old(rdr).cursor() + 4));
            Ok(t)
        } else {
            Err(ReadError::UnexpectedEof)
        }
    }
}

impl SerialRead for OSType {
    fn read(rdr: &mut SerialReadStorage) -> (r: Result<OSType, ReadError>) {
        OSType::read(rdr)
    }
}

/// A string stored as a length byte followed by that many bytes.
#[derive(Debug)]
pub struct PString(Vec<u8>);

impl PString {
    pub closed spec fn chars(&self) -> Seq<u8> {
        self.0@
    }

    pub fn new(bytes: Vec<u8>) -> (r: PString)
        ensures
            r.chars() == bytes@,
    {
        PString(bytes)
    }

    pub fn as_bytes(&self) -> (r: &[u8])
        ensures
            r@ == self.chars(),
    {
        self.0.as_slice()
    }

    /// Reads the length byte and the bytes it counts.
    pub fn read(rdr: &mut SerialReadStorage) -> (r: Result<PString, ReadError>)
        ensures
            final(rdr).bytes() == old(rdr).bytes(),
            final(rdr).marks() == old(rdr).marks(),
            old(rdr).has(1) && old(rdr).has(1 + old(rdr).peek(0)) ==> (r matches Ok(s)
                && s.chars() == old(rdr).bytes().subrange(
                old(rdr).cursor() + 1,
                old(rdr).cursor() + 1 + old(rdr).peek(0),
            ) && final(rdr).advanced(old(rdr), 1 + old(rdr).peek(0))),
            !(old(rdr).has(1) && old(rdr).has(1 + old(rdr).peek(0))) ==> r is Err,
    {
        let len = match rdr.read_u8() {
            Ok(l) => l,
            Err(e) => return Err(e),
        };
        let ghost start = rdr.cursor();
        let mut data: Vec<u8> = Vec::new();
        let mut i: u8 = 0;
        assert(data@ =~= rdr.bytes().subrange(start, start));
        while i < len
            invariant
                rdr.bytes() == old(rdr).bytes(),
                rdr.marks() == old(rdr).marks(),
                start == old(rdr).cursor() + 1,
                len == old(rdr).peek(0),
                old(rdr).has(1),
                i <= len,
                rdr.cursor() == start + i,
                start + i <= rdr.bytes().len(),
                data@ == rdr.bytes().subrange(start, start + i),
            decreases len - i,
        {
            let b = match rdr.read_u8() {
                Ok(b) => b,
                Err(e) => return Err(e),
            };
            assert(b == rdr.bytes()[start + i]);
            data.push(b);
            i += 1;
            assert(data@ =~= rdr.bytes().subrange(start, start + i));
        }
        Ok(PString(data))
    }
}

impl SerialRead for PString {
    fn read(rdr: &mut SerialReadStorage) -> (r: Result<PString, ReadError>) {
        PString::read(rdr)
    }
}

/// Seconds between the legacy epoch (1904-01-01) and the Unix epoch.
pub const EPOCH_OFFSET: i64 = 2082844800;

/// A timestamp in seconds since 1904-01-01, as stored on disk.
#[derive(PartialEq, Eq, Structural, Debug, Clone, Copy)]
pub struct DateTime(pub u32);

impl DateTime {
    /// Seconds since the Unix epoch.
    pub fn unix_timestamp(&self) -> (r: i64)
        ensures
            r == self.0 - EPOCH_OFFSET,
    {
        self.0 as i64 - EPOCH_OFFSET
    }

    pub fn read(rdr: &mut SerialReadStorage) -> (r: Result<DateTime, ReadError>)
        ensures
            final(rdr).bytes() == old(rdr).bytes(),
            final(rdr).marks() == old(rdr).marks(),
            old(rdr).has(4) ==> final(rdr).advanced(old(rdr), 4),
            old(rdr).has(4) ==> r == Ok::<DateTime, ReadError>(DateTime(crate::serialization::be32(old(rdr).peek(0), old(rdr).peek(1), old(rdr).peek(2), old(rdr).peek(3)))),
            !old(rdr).has(4) ==> r is Err,
    {
        match rdr.read_u32() {
            Ok(v) => Ok(DateTime(v)),
            Err(e) => Err(e),
        }
    }
}

} // verus!
