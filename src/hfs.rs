//! On-disk structures of the legacy volume format: extent records and the
//! reads they describe, the volume bitmap, and B-tree nodes.

use vstd::prelude::*;
use crate::rsrc::{be16_at, be32_at};
use crate::serialization::{SerialReadStorage, ReadError};

verus! {

/// A run of allocation blocks: the first block and the number of blocks.
#[allow(non_snake_case)]
#[derive(PartialEq, Eq, Structural, Debug, Clone, Copy)]
pub struct ExtDescriptor {
    pub xdrStABN: u16,
    pub xdrNumABlks: i16,
}

/// The first three extents of a file fork.
#[derive(Debug, Clone, Copy)]
pub struct ExtDataRec(pub [ExtDescriptor; 3]);

/// Number of blocks of an extent; a negative count stands for none.
pub open spec fn ext_blocks(e: ExtDescriptor) -> int {
    if e.xdrNumABlks < 0 {
        0
    } else {
        e.xdrNumABlks as int
    }
}

/// The `len` bytes of `disk` at `pos`, if they lie inside it.
pub open spec fn region(disk: Seq<u8>, pos: int, len: int) -> Option<Seq<u8>> {
    if 0 <= pos && 0 <= len && pos + len <= disk.len() {
        Some(disk.subrange(pos, pos + len))
    } else {
        None
    }
}

/// The bytes `[off, off + len)` of the fork laid out by `exts`, on a disk
/// whose allocation blocks of `blk` bytes start at `start`; a request past
/// the last extent is cut short. `None` when a part lies outside the disk.
pub open spec fn extent_read(disk: Seq<u8>, start: int, blk: int, exts: Seq<ExtDescriptor>, off: int, len: int) -> Option<Seq<u8>>
    decreases exts.len(),
{
    if exts.len() == 0 {
        Some(Seq::empty())
    } else {
        let size = ext_blocks(exts[0]) * blk;
        let base = start + exts[0].xdrStABN * blk;
        if off >= size {
            extent_read(disk, start, blk, exts.drop_first(), off - size, len)
        } else if off + len > size {
            match region(disk, base + off, size - off) {
                Some(a) => match extent_read(disk, start, blk, exts.drop_first(), 0, len - (size - off)) {
                    Some(b) => Some(a + b),
                    None => None,
                },
                None => None,
            }
        } else {
            region(disk, base + off, len)
        }
    }
}

/// Reads of a disk image in allocation blocks.
pub struct BlockAccess {
    storage: Vec<u8>,
    alblk_start: u64,
    alblk_size: u64,
}

impl BlockAccess {
    pub closed spec fn disk(&self) -> Seq<u8> {
        self.storage@
    }

    /// Byte offset of allocation block 0.
    pub closed spec fn start(&self) -> int {
        self.alblk_start as int
    }

    /// Bytes per allocation block.
    pub closed spec fn block_size(&self) -> int {
        self.alblk_size as int
    }

    pub open spec fn wf(&self) -> bool {
        self.start() <= 0x1_0000_0000 * 512 && self.block_size() <= 0x1_0000_0000
    }

    /// Access to `storage`, whose allocation blocks of `alblk_size` bytes
    /// start at 512-byte sector `alblk_start`.
    pub fn new(storage: Vec<u8>, alblk_start: u64, alblk_size: u64) -> (r: BlockAccess)
        requires
            alblk_start <= 0x1_0000_0000,
            alblk_size <= 0x1_0000_0000,
        ensures
            r.wf(),
            r.disk() == storage@,
            r.start() == alblk_start * 512,
            r.block_size() == alblk_size,
    {
        BlockAccess { storage, alblk_start: alblk_start * 512, alblk_size }
    }

    fn do_read_blk(&self, offset: u64, len: u64) -> (r: Result<SerialReadStorage, ReadError>)
        ensures
            match region(self.disk(), offset as int, len as int) {
                Some(b) => r matches Ok(d) && d.bytes() == b,
                None => r is Err,
            },
    {
        let n = self.storage.len() as u64;
        if offset > n || len > n - offset {
            return Err(ReadError::UnexpectedEof);
        }
        let s = vstd::slice::slice_subrange(
            self.storage.as_slice(),
            offset as usize,
            (offset + len) as usize,
        );
        Ok(SerialReadStorage::from(vstd::slice::slice_to_vec(s)))
    }

    /// Reads `len` bytes at `offset` of the fork whose extents are `rec`.
    pub fn read_extdatarec(&self, rec: &ExtDataRec, offset: u64, len: u64) -> (r: Result<SerialReadStorage, ReadError>)
        requires
            self.wf(),
            offset + len <= u64::MAX,
        ensures
            match extent_read(self.disk(), self.start(), self.block_size(), rec.0@, offset as int, len as int) {
                Some(b) => r matches Ok(d) && d.bytes() == b,
                None => r is Err,
            },
    {
        let ghost exts = rec.0@;
        let mut left_offset = offset;
        let mut left_len = len;
        let mut output = SerialReadStorage::from(Vec::new());
        let mut k: usize = 0;
        assert(exts.subrange(0, 3) =~= exts);
        while k < 3
            invariant
                self.wf(),
                exts == rec.0@,
                exts.len() == 3,
                k <= 3,
                left_offset + left_len <= u64::MAX,
                ({
                    let whole = extent_read(self.disk(), self.start(), self.block_size(), exts, offset as int, len as int);
                    let rest = extent_read(self.disk(), self.start(), self.block_size(), exts.subrange(k as int, 3), left_offset as int, left_len as int);
                    &&& whole is Some <==> rest is Some
                    &&& rest matches Some(b) ==> whole == Some(output.bytes() + b)
                }),
            decreases 3 - k,
        {
            let ghost rest = exts.subrange(k as int, 3);
            assert(rest.drop_first() =~= exts.subrange(k + 1, 3));
            assert(rest[0] == rec.0[k as int]);
            let e = rec.0[k];
            let blocks: u64 = if e.xdrNumABlks < 0 { 0 } else { e.xdrNumABlks as u64 };
            let bs = self.alblk_size;
            let st = e.xdrStABN as u64;
            assert(blocks * bs <= 0x8000 * 0x1_0000_0000) by (nonlinear_arith)
                requires
                    blocks <= 0x8000,
                    bs <= 0x1_0000_0000,
            ;
            assert(st * bs <= 0x1_0000 * 0x1_0000_0000) by (nonlinear_arith)
                requires
                    st <= 0xffff,
                    bs <= 0x1_0000_0000,
            ;
            let rec_size = blocks * bs;
            let base = self.alblk_start + st * bs;
            if left_offset >= rec_size {
                // starts after this extent
                left_offset = left_offset - rec_size;
            } else if left_offset + left_len > rec_size {
                // runs past the end of this extent
                let take_len = rec_size - left_offset;
                let part = self.do_read_blk(base + left_offset, take_len)?;
                let ghost before = output.bytes();
                let ghost a = part.bytes();
                output.extend(part);
                left_len = left_len - take_len;
                left_offset = 0;
                proof {
                    let next = extent_read(self.disk(), self.start(), self.block_size(), exts.subrange(k + 1, 3), 0, left_len as int);
                    if let Some(bb) = next {
                        assert((before + a) + bb =~= before + (a + bb));
                    }
                }
            } else {
                // ends inside this extent
                let part = self.do_read_blk(base + left_offset, left_len)?;
                output.extend(part);
                proof {
                    assert(output.bytes() + Seq::<u8>::empty() =~= output.bytes());
                }
                return Ok(output);
            }
            k += 1;
        }
        assert(output.bytes() + Seq::<u8>::empty() =~= output.bytes());
        Ok(output)
    }
}

/// A block of bytes read from the volume.
pub struct FileBlock {
    data: Vec<u8>,
}

impl FileBlock {
    pub closed spec fn bytes(&self) -> Seq<u8> {
        self.data@
    }

    pub fn from(vec: Vec<u8>) -> (r: FileBlock)
        ensures
            r.bytes() == vec@,
    {
        FileBlock { data: vec }
    }

    pub fn read_u8(&self, idx: usize) -> (r: u8)
        requires
            idx < self.bytes().len(),
        ensures
            r == self.bytes()[idx as int],
    {
        self.data[idx]
    }

    pub fn to_reader(self) -> (r: SerialReadStorage)
        ensures
            r.bytes() == self.bytes(),
            r.cursor() == 0,
    {
        SerialReadStorage::from(self.data)
    }
}

/// The volume bitmap: bit `n`, counted from the most significant bit of
/// byte 0, is set when allocation block `n` is in use.
pub struct HfsVolBitmap(FileBlock);

impl HfsVolBitmap {
    pub closed spec fn bits(&self) -> Seq<u8> {
        self.0.bytes()
    }

    pub fn from(block: FileBlock) -> (r: HfsVolBitmap)
        ensures
            r.bits() == block.bytes(),
    {
        HfsVolBitmap(block)
    }

    /// Whether allocation block `block_num` is in use.
    pub fn page_used(&self, block_num: u16) -> (r: bool)
        requires
            block_num / 8 < self.bits().len(),
        ensures
            r == ((self.bits()[(block_num / 8) as int] >> (7 - block_num % 8) as u8) & 1 == 1),
    {
        let byte_idx = (block_num / 8) as usize;
        let bit_idx = (7 - (block_num % 8)) as u8;
        let b = self.0.read_u8(byte_idx);
        assert((b & (1u8 << bit_idx)) != 0 <==> ((b >> bit_idx) & 1 == 1)) by (bit_vector)
            requires
                bit_idx < 8,
        ;
        b & (1u8 << bit_idx) != 0
    }
}

/// The descriptor at the start of every B-tree node.
#[allow(non_snake_case)]
#[derive(Debug, Clone, Copy)]
pub struct NodeDescriptor {
    pub ndFLink: u32,
    pub ndBLink: u32,
    pub ndType: i8,
    pub ndNHeight: i8,
    pub ndNRecs: u16,
    pub ndResv2: u16,
}

impl NodeDescriptor {
    pub fn read(rdr: &mut SerialReadStorage) -> (r: Result<NodeDescriptor, ReadError>)
        ensures
            final(rdr).bytes() == old(rdr).bytes(),
            old(rdr).has(14) ==> (r matches Ok(nd) && nd.ndFLink == be32_at(old(rdr).bytes(), old(rdr).cursor())
                && nd.ndBLink == be32_at(old(rdr).bytes(), old(rdr).cursor() + 4)
                && nd.ndType == old(rdr).peek(8) as i8 && nd.ndNHeight == old(rdr).peek(9) as i8
                && nd.ndNRecs == be16_at(old(rdr).bytes(), old(rdr).cursor() + 10)
                && nd.ndResv2 == be16_at(old(rdr).bytes(), old(rdr).cursor() + 12)),
            !old(rdr).has(14) ==> r is Err,
    {
        if !(rdr.pos() < rdr.size() && rdr.size() - rdr.pos() >= 14) {
            return Err(ReadError::UnexpectedEof);
        }
        let f = rdr.read_u32().unwrap();
        let b = rdr.read_u32().unwrap();
        let t = rdr.read_i8().unwrap();
        let h = rdr.read_i8().unwrap();
        let n = rdr.read_u16().unwrap();
        let r2 = rdr.read_u16().unwrap();
        Ok(NodeDescriptor { ndFLink: f, ndBLink: b, ndType: t, ndNHeight: h, ndNRecs: n, ndResv2: r2 })
    }
}

/// Offset of the record offset-table entry for record `i` of a node of
/// `size` bytes: the table runs backwards from the end, two bytes each,
/// and record `i` spans from entry `i` to entry `i + 1`.
pub open spec fn rec_entry(size: int, i: int) -> int {
    size - 4 - 2 * i
}

/// Whether the offset table of a node `b` with `n` records is sound: each
/// entry lies in the node, and each record starts before it ends and ends
/// inside the node.
pub open spec fn offsets_sound(b: Seq<u8>, n: int) -> bool {
    forall|i: int|
        0 <= i < n ==> {
            let p = #[trigger] rec_entry(b.len() as int, i);
            &&& p >= 0
            &&& be16_at(b, p + 2) <= be16_at(b, p) <= b.len()
        }
}

/// A B-tree node: its descriptor and its records.
pub struct BTreeNode {
    pub nd: NodeDescriptor,
    pub recs: Vec<SerialReadStorage>,
}

impl BTreeNode {
    /// Splits the node in `rdr` into its records.
    pub fn new(rdr: &mut SerialReadStorage) -> (r: Result<BTreeNode, ReadError>)
        ensures
            r matches Ok(node) ==> ({
                let b = old(rdr).bytes();
                &&& b.len() >= 14
                &&& node.nd.ndNRecs == be16_at(b, 10)
                &&& node.recs@.len() == node.nd.ndNRecs
                &&& forall|i: int| 0 <= i < node.recs@.len() ==> {
                    let p = rec_entry(b.len() as int, i);
                    #[trigger] node.recs@[i].bytes() == b.subrange(
                        be16_at(b, p + 2) as int,
                        be16_at(b, p) as int,
                    )
                }
            }),
            old(rdr).bytes().len() >= 14 && offsets_sound(
                old(rdr).bytes(),
                be16_at(old(rdr).bytes(), 10) as int,
            ) ==> r is Ok,
    {
        rdr.seek(0);
        let nd = NodeDescriptor::read(rdr)?;
        let mut recs: Vec<SerialReadStorage> = Vec::new();
        let size = rdr.size();
        let ghost b = rdr.bytes();
        let mut i: u16 = 0;
        while i < nd.ndNRecs
            invariant
                rdr.bytes() == b,
                b == old(rdr).bytes(),
                size == b.len(),
                recs@.len() == i,
                i <= nd.ndNRecs,
                b.len() >= 14,
                nd.ndNRecs == be16_at(b, 10),
                forall|j: int| 0 <= j < i ==> {
                    let p = rec_entry(b.len() as int, j);
                    #[trigger] recs@[j].bytes() == b.subrange(be16_at(b, p + 2) as int, be16_at(b, p) as int)
                },
            decreases nd.ndNRecs - i,
        {
            if size < 4 + 2 * (i as u64) {
                assert(rec_entry(b.len() as int, i as int) < 0);
                return Err(ReadError::InvalidData);
            }
            rdr.seek(size - 4 - 2 * (i as u64));
            let idx_end = rdr.read_u16()?;
            let idx_start = rdr.read_u16()?;
            if idx_end < idx_start || idx_end as u64 > size {
                let ghost p = rec_entry(b.len() as int, i as int);
                assert(idx_end == be16_at(b, p) && idx_start == be16_at(b, p + 2));
                return Err(ReadError::InvalidData);
            }
            recs.push(rdr.sub_reader(idx_start as u64, (idx_end - idx_start) as u64));
            i += 1;
        }
        Ok(BTreeNode { nd, recs })
    }
}

} // verus!
