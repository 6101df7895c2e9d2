//! Resource forks: a header, a data area of length-prefixed records, and a
//! map from (type, id) to a record's place in the data area.

use vstd::prelude::*;
use crate::serialization::{SerialReadStorage, ReadError, be16, be24, be32};
use crate::types::{OSType, PString};

verus! {

/// Big-endian 32-bit value at `off` of `b`.
pub open spec fn be32_at(b: Seq<u8>, off: int) -> u32 {
    be32(b[off], b[off + 1], b[off + 2], b[off + 3])
}

/// Big-endian 16-bit value at `off` of `b`.
pub open spec fn be16_at(b: Seq<u8>, off: int) -> u16 {
    be16(b[off], b[off + 1])
}

/// The fixed header at the start of a resource fork.
#[derive(Debug, Clone, Copy)]
pub struct RsrcHeader {
    pub data_offset: i32,
    pub map_offset: i32,
    pub data_len: u32,
    pub map_len: u32,
}

impl RsrcHeader {
    pub fn read(rdr: &mut SerialReadStorage) -> (r: Result<RsrcHeader, ReadError>)
        ensures
            final(rdr).bytes() == old(rdr).bytes(),
            old(rdr).has(16) ==> (r matches Ok(h) && h.data_offset == be32_at(
                old(rdr).bytes(),
                old(rdr).cursor(),
            ) as i32 && h.map_offset == be32_at(old(rdr).bytes(), old(rdr).cursor() + 4) as i32
                && h.data_len == be32_at(old(rdr).bytes(), old(rdr).cursor() + 8) && h.map_len
                == be32_at(old(rdr).bytes(), old(rdr).cursor() + 12)),
            !old(rdr).has(16) ==> r is Err,
    {
        if !(rdr.pos() < rdr.size() && rdr.size() - rdr.pos() >= 16) {
            return Err(ReadError::UnexpectedEof);
        }
        let data_offset = rdr.read_i32().unwrap();
        let map_offset = rdr.read_i32().unwrap();
        let data_len = rdr.read_u32().unwrap();
        let map_len = rdr.read_u32().unwrap();
        Ok(RsrcHeader { data_offset, map_offset, data_len, map_len })
    }
}

/// The header of the resource map: 22 reserved bytes, then the map's
/// attributes and the offsets of its type list and name list.
#[derive(Debug, Clone, Copy)]
pub struct RsrcMapHeader {
    pub attributes: u16,
    pub type_list_offset: i16,
    pub name_list_offset: i16,
}

impl RsrcMapHeader {
    pub fn read(rdr: &mut SerialReadStorage) -> (r: Result<RsrcMapHeader, ReadError>)
        ensures
            final(rdr).bytes() == old(rdr).bytes(),
            old(rdr).has(28) ==> (r matches Ok(h) && h.attributes == be16_at(
                old(rdr).bytes(),
                old(rdr).cursor() + 22,
            ) && h.type_list_offset == be16_at(old(rdr).bytes(), old(rdr).cursor() + 24) as i16
                && h.name_list_offset == be16_at(old(rdr).bytes(), old(rdr).cursor() + 26) as i16),
            !old(rdr).has(28) ==> r is Err,
    {
        if !(rdr.pos() < rdr.size() && rdr.size() - rdr.pos() >= 28) {
            return Err(ReadError::UnexpectedEof);
        }
        rdr.pad(22);
        let attributes = rdr.read_u16().unwrap();
        let type_list_offset = rdr.read_i16().unwrap();
        let name_list_offset = rdr.read_i16().unwrap();
        Ok(RsrcMapHeader { attributes, type_list_offset, name_list_offset })
    }
}

/// An entry of the type list: a type, the number of resources of that type
/// less one, and the offset of their reference list.
#[derive(Debug, Clone, Copy)]
pub struct RsrcTypeRef {
    pub rsrc_type: OSType,
    pub count: u16,
    pub type_offset: u16,
}

impl RsrcTypeRef {
    pub fn read(rdr: &mut SerialReadStorage) -> (r: Result<RsrcTypeRef, ReadError>)
        ensures
            final(rdr).bytes() == old(rdr).bytes(),
            old(rdr).has(8) ==> (r matches Ok(t) && t.rsrc_type.0@ == old(rdr).bytes().subrange(
                old(rdr).cursor(),
                old(rdr).cursor() + 4,
            ) && t.count == be16_at(old(rdr).bytes(), old(rdr).cursor() + 4) && t.type_offset
                == be16_at(old(rdr).bytes(), old(rdr).cursor() + 6) && final(rdr).advanced(
                old(rdr),
                8,
            )),
            !old(rdr).has(8) ==> r is Err,
    {
        if !(rdr.pos() < rdr.size() && rdr.size() - rdr.pos() >= 8) {
            return Err(ReadError::UnexpectedEof);
        }
        let rsrc_type = OSType::read(rdr).unwrap();
        let count = rdr.read_u16().unwrap();
        let type_offset = rdr.read_u16().unwrap();
        Ok(RsrcTypeRef { rsrc_type, count, type_offset })
    }
}

/// An entry of a reference list: id, name offset (negative when unnamed),
/// attributes and the 24-bit offset of the record in the data area.
#[derive(Debug, Clone, Copy)]
pub struct RsrcRef {
    pub id: i16,
    pub name_offset: i16,
    pub attributes: u8,
    pub data_offset: i32,
}

impl RsrcRef {
    /// Reads an entry and skips the four reserved bytes after it.
    pub fn read(rdr: &mut SerialReadStorage) -> (r: Result<RsrcRef, ReadError>)
        ensures
            final(rdr).bytes() == old(rdr).bytes(),
            final(rdr).marks() == old(rdr).marks(),
            old(rdr).has(8) && old(rdr).cursor() + 12 <= u64::MAX ==> (r matches Ok(e) && e.id
                == be16_at(old(rdr).bytes(), old(rdr).cursor()) as i16 && e.name_offset == be16_at(
                old(rdr).bytes(),
                old(rdr).cursor() + 2,
            ) as i16 && e.attributes == old(rdr).peek(4) && e.data_offset == be24(
                old(rdr).peek(5),
                old(rdr).peek(6),
                old(rdr).peek(7),
            ) && final(rdr).advanced(old(rdr), 12)),
            !(old(rdr).has(8) && old(rdr).cursor() + 12 <= u64::MAX) ==> r is Err,
    {
        if !(rdr.pos() < rdr.size() && rdr.size() - rdr.pos() >= 8 && rdr.pos() <= u64::MAX - 12) {
            return Err(ReadError::UnexpectedEof);
        }
        let id = rdr.read_i16().unwrap();
        let name_offset = rdr.read_i16().unwrap();
        let attributes = rdr.read_u8().unwrap();
        let data_offset = rdr.read_u24().unwrap() as i32;
        rdr.pad(4);
        Ok(RsrcRef { id, name_offset, attributes, data_offset })
    }
}

/// A length-prefixed record of the data area.
pub struct RsrcData {
    pub len: u32,
    pub data: SerialReadStorage,
}

impl RsrcData {
    pub fn read(rdr: &mut SerialReadStorage) -> (r: Result<RsrcData, ReadError>)
        ensures
            final(rdr).bytes() == old(rdr).bytes(),
            r matches Ok(d) ==> old(rdr).has(4) && d.len == be32_at(old(rdr).bytes(), old(rdr).cursor())
                && d.data.bytes() == old(rdr).bytes().subrange(
                old(rdr).cursor() + 4,
                old(rdr).cursor() + 4 + d.len,
            ),
            old(rdr).has(4) && old(rdr).has(4 + be32_at(old(rdr).bytes(), old(rdr).cursor()))
                ==> r is Ok,
    {
        let len = rdr.read_u32()?;
        let pos = rdr.pos();
        if pos > rdr.size() || (len as u64) > rdr.size() - pos {
            return Err(ReadError::UnexpectedEof);
        }
        let data = rdr.sub_reader(pos, len as u64);
        Ok(RsrcData { len, data })
    }
}

/// One resource as listed in the map.
#[derive(Debug)]
pub struct RsrcObj {
    pub id: i16,
    pub name: Option<PString>,
    pub attributes: u8,
    pub data_offset: u64,
}

impl RsrcObj {
    /// Reads a reference-list entry and, when it is named, its name from the
    /// name list; the position ends after the entry.
    pub fn read(rdr: &mut SerialReadStorage, maphdr: &RsrcMapHeader) -> (r: Result<RsrcObj, ReadError>)
        ensures
            final(rdr).bytes() == old(rdr).bytes(),
            final(rdr).marks() == old(rdr).marks(),
            r matches Ok(o) ==> old(rdr).has(8) && o.id == be16_at(old(rdr).bytes(), old(rdr).cursor()) as i16
                && o.attributes == old(rdr).peek(4) && o.data_offset == be24(
                old(rdr).peek(5),
                old(rdr).peek(6),
                old(rdr).peek(7),
            ) as i32 as u64 && (o.name is Some <==> be16_at(old(rdr).bytes(), old(rdr).cursor() + 2) as i16 >= 0)
                && final(rdr).advanced(old(rdr), 12),
    {
        let refobj = RsrcRef::read(rdr)?;
        let ghost after = *rdr;
        assert(after.advanced(old(rdr), 12));
        let name = if refobj.name_offset >= 0 {
            let at = maphdr.name_list_offset as i64 + refobj.name_offset as i64;
            if at < 0 {
                return Err(ReadError::InvalidData);
            }
            // remember where the entry ends, read the name, come back
            rdr.length_start(0);
            rdr.seek(at as u64);
            let ghost mark = after.position();
            assert(rdr.marks() == after.marks().push(mark));
            let name = PString::read(rdr);
            rdr.length_end();
            assert(after.marks().push(mark).drop_last() =~= after.marks());
            assert(rdr.advanced(&after, 0));
            match name {
                Ok(n) => Some(n),
                Err(e) => return Err(e),
            }
        } else {
            None
        };
        Ok(RsrcObj {
            id: refobj.id,
            name,
            attributes: refobj.attributes,
            data_offset: refobj.data_offset as u64,
        })
    }
}

/// The resources of one type.
#[derive(Debug)]
pub struct RsrcType {
    pub rsrc_type: OSType,
    pub rsrc: Vec<RsrcObj>,
}

/// The resource map: every resource by type.
#[derive(Debug)]
pub struct RsrcMap {
    pub attributes: u16,
    pub types: Vec<RsrcType>,
}

impl RsrcMap {
    /// The resource of type `t` with id `id` that a lookup finds.
    pub open spec fn find(&self, t: OSType, id: i16) -> Option<RsrcObj> {
        find_type(self.types@, t, id)
    }

    /// Reads the map: its header, the type list and each type's reference
    /// list.
    pub fn read(rdr: &mut SerialReadStorage) -> (r: Result<RsrcMap, ReadError>)
        ensures
            final(rdr).bytes() == old(rdr).bytes(),
            r matches Ok(m) ==> old(rdr).has(28) && m.attributes == be16_at(
                old(rdr).bytes(),
                old(rdr).cursor() + 22,
            ) && m.types@.len() == be16_at(
                old(rdr).bytes(),
                be16_at(old(rdr).bytes(), old(rdr).cursor() + 24) as i16 as int,
            ) + 1,
    {
        let maphdr = RsrcMapHeader::read(rdr)?;
        if maphdr.type_list_offset < 0 {
            return Err(ReadError::InvalidData);
        }
        let list_at = maphdr.type_list_offset as u64;
        rdr.seek(list_at);
        let count = rdr.read_u16()? as u32 + 1;
        let mut type_refs: Vec<RsrcTypeRef> = Vec::new();
        let mut i: u32 = 0;
        while i < count
            invariant
                rdr.bytes() == old(rdr).bytes(),
                type_refs@.len() == i,
                i <= count,
            decreases count - i,
        {
            type_refs.push(RsrcTypeRef::read(rdr)?);
            i += 1;
        }
        let mut types: Vec<RsrcType> = Vec::new();
        let mut k: usize = 0;
        while k < type_refs.len()
            invariant
                rdr.bytes() == old(rdr).bytes(),
                list_at <= 0x7fff,
                types@.len() == k,
                k <= type_refs@.len(),
            decreases type_refs.len() - k,
        {
            let t = type_refs[k];
            rdr.seek(list_at + t.type_offset as u64);
            let n = t.count as u32 + 1;
            let mut rsrc: Vec<RsrcObj> = Vec::new();
            let mut j: u32 = 0;
            while j < n
                invariant
                    rdr.bytes() == old(rdr).bytes(),
                decreases n - j,
            {
                rsrc.push(RsrcObj::read(rdr, &maphdr)?);
                j += 1;
            }
            types.push(RsrcType { rsrc_type: t.rsrc_type, rsrc });
            k += 1;
        }
        Ok(RsrcMap { attributes: maphdr.attributes, types })
    }

    /// The resource of type `rsrc_type` with id `id`: the first with that id
    /// in the first list of that type that has one.
    pub fn open(&self, rsrc_type: OSType, id: i16) -> (r: Option<&RsrcObj>)
        ensures
            match self.find(rsrc_type, id) {
                Some(o) => r matches Some(p) && *p == o,
                None => r is None,
            },
    {
        let mut k: usize = 0;
        assert(self.types@.subrange(0, self.types@.len() as int) =~= self.types@);
        while k < self.types.len()
            invariant
                0 <= k <= self.types@.len(),
                find_type(self.types@, rsrc_type, id) == find_type(
                    self.types@.subrange(k as int, self.types@.len() as int),
                    rsrc_type,
                    id,
                ),
            decreases self.types@.len() - k,
        {
            let ghost rest = self.types@.subrange(k as int, self.types@.len() as int);
            assert(rest.drop_first() =~= self.types@.subrange(k + 1, self.types@.len() as int));
            let typelist = &self.types[k];
            assert(rest[0] == self.types@[k as int]);
            if typelist.rsrc_type == rsrc_type {
                let mut j: usize = 0;
                assert(typelist.rsrc@.subrange(0, typelist.rsrc@.len() as int) =~= typelist.rsrc@);
                while j < typelist.rsrc.len()
                    invariant
                        0 <= j <= typelist.rsrc@.len(),
                        rest.len() > 0,
                        rest[0] == *typelist,
                        typelist.rsrc_type.0@ == rsrc_type.0@,
                        find_type(self.types@, rsrc_type, id) == find_type(rest, rsrc_type, id),
                        find_in(typelist.rsrc@, id) == find_in(
                            typelist.rsrc@.subrange(j as int, typelist.rsrc@.len() as int),
                            id,
                        ),
                    decreases typelist.rsrc@.len() - j,
                {
                    let ghost objs = typelist.rsrc@.subrange(j as int, typelist.rsrc@.len() as int);
                    assert(objs.drop_first() =~= typelist.rsrc@.subrange(
                        j + 1,
                        typelist.rsrc@.len() as int,
                    ));
                    assert(objs[0] == typelist.rsrc@[j as int]);
                    if typelist.rsrc[j].id == id {
                        assert(find_in(objs, id) == Some(objs[0]));
                        assert(find_type(rest, rsrc_type, id) == find_in(rest[0].rsrc@, id));
                        return Some(&typelist.rsrc[j]);
                    }
                    j += 1;
                }
                assert(typelist.rsrc@.subrange(j as int, typelist.rsrc@.len() as int).len() == 0);
            }
            k += 1;
        }
        None
    }
}

/// The first resource with id `id` in `objs`.
pub open spec fn find_in(objs: Seq<RsrcObj>, id: i16) -> Option<RsrcObj>
    decreases objs.len(),
{
    if objs.len() == 0 {
        None
    } else if objs[0].id == id {
        Some(objs[0])
    } else {
        find_in(objs.drop_first(), id)
    }
}

/// The resource with id `id` in the first list of type `t` that has one.
pub open spec fn find_type(types: Seq<RsrcType>, t: OSType, id: i16) -> Option<RsrcObj>
    decreases types.len(),
{
    if types.len() == 0 {
        None
    } else if types[0].rsrc_type.0@ == t.0@ && find_in(types[0].rsrc@, id) is Some {
        find_in(types[0].rsrc@, id)
    } else {
        find_type(types.drop_first(), t, id)
    }
}

/// A resource fork held in memory, with its header and map decoded.
pub struct Rsrc {
    storage: Vec<u8>,
    header: RsrcHeader,
    map: RsrcMap,
}

/// The record at `base` of `fork`: a 32-bit length, then that many bytes.
pub open spec fn record_at(fork: Seq<u8>, base: int) -> Option<Seq<u8>> {
    if 0 <= base && base + 4 <= fork.len() && base + 4 + be32_at(fork, base) <= fork.len() {
        Some(fork.subrange(base + 4, base + 4 + be32_at(fork, base)))
    } else {
        None
    }
}

impl Rsrc {
    /// The bytes of the fork.
    pub closed spec fn fork(&self) -> Seq<u8> {
        self.storage@
    }

    /// Offset of the data area in the fork.
    pub closed spec fn data_area(&self) -> int {
        self.header.data_offset as int
    }

    pub closed spec fn map_spec(&self) -> RsrcMap {
        self.map
    }

    /// Decodes the header and the map of the fork `storage`.
    pub fn new(storage: Vec<u8>) -> (r: Result<Rsrc, ReadError>)
        ensures
            r matches Ok(rs) ==> rs.fork() == storage@ && storage@.len() >= 16 && rs.data_area()
                == be32_at(storage@, 0) as i32,
            storage@.len() < 16 ==> r is Err,
    {
        let mut rdr = SerialReadStorage::from(storage);
        let header = RsrcHeader::read(&mut rdr)?;
        if header.map_offset < 0 {
            return Err(ReadError::UnexpectedEof);
        }
        let map_at = header.map_offset as u64;
        let map_len = header.map_len as u64;
        if map_at > rdr.size() || map_len > rdr.size() - map_at {
            return Err(ReadError::UnexpectedEof);
        }
        let mut map_rdr = rdr.sub_reader(map_at, map_len);
        let map = RsrcMap::read(&mut map_rdr)?;
        let storage = rdr.to_vec();
        Ok(Rsrc { storage, header, map })
    }

    /// The bytes of the resource of type `t` with id `id`, when the map
    /// lists it and its record lies inside the fork.
    pub open spec fn resource(&self, t: OSType, id: i16) -> Option<Seq<u8>> {
        match self.map_spec().find(t, id) {
            Some(o) => record_at(self.fork(), self.data_area() + o.data_offset),
            None => None,
        }
    }

    /// The bytes of the resource of type `rsrc_type` with id `id`.
    pub fn open(&self, rsrc_type: OSType, id: i16) -> (r: Result<SerialReadStorage, ReadError>)
        ensures
            self.map_spec().find(rsrc_type, id) is None ==> r == Err::<SerialReadStorage, ReadError>(ReadError::NotFound),
            self.map_spec().find(rsrc_type, id) is Some && self.resource(rsrc_type, id) is None ==> r == Err::<SerialReadStorage, ReadError>(ReadError::UnexpectedEof),
            self.resource(rsrc_type, id) matches Some(b) ==> (r matches Ok(d) && d.bytes() == b && d.cursor() == 0 && d.marks().len() == 0),
    {
        let obj = match self.map.open(rsrc_type, id) {
            Some(o) => o,
            None => return Err(ReadError::NotFound),
        };
        let n = self.storage.len() as u64;
        let at: i128 = self.header.data_offset as i128 + obj.data_offset as i128;
        if at < 0 || at > n as i128 || n as i128 - at < 4 {
            return Err(ReadError::UnexpectedEof);
        }
        let base = at as u64;
        let b = base as usize;
        let size = (self.storage[b] as u64) * 0x100_0000 + (self.storage[b + 1] as u64) * 0x1_0000
            + (self.storage[b + 2] as u64) * 0x100 + (self.storage[b + 3] as u64);
        if size > n - base - 4 {
            return Err(ReadError::UnexpectedEof);
        }
        let data = vstd::slice::slice_to_vec(
            vstd::slice::slice_subrange(self.storage.as_slice(), b + 4, (base + 4 + size) as usize),
        );
        Ok(SerialReadStorage::from(data))
    }
}

} // verus!
