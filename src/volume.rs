//! A volume image: its master directory block, its catalog, and lookup of
//! files by colon-separated path.

#![allow(non_snake_case)]

use vstd::prelude::*;
use crate::btree::{BTree, BTreeIter};
use crate::catalog::{CatDataRec, CatKeyRec, CdrFilRec, read_extdatarec};
use crate::hfs::{BlockAccess, ExtDataRec, ExtDescriptor, extent_read};
use crate::rsrc::{be16_at, be32_at};
use crate::serialization::{SerialReadStorage, ReadError};
use crate::types::{DateTime, PString};

verus! {

/// Signature of a volume of this format, `BD`.
pub const SIGNATURE: i16 = 0x4244;

/// The master directory block: the volume's layout and the extents of its
/// catalog and extents-overflow files.
#[derive(Debug)]
pub struct MDB {
    pub drSigWord: i16,
    pub drCrDate: DateTime,
    pub drLsMod: DateTime,
    pub drAtrb: i16,
    pub drNmFls: i16,
    pub drVBMSt: i16,
    pub drAllocPtr: i16,
    pub drNmAlBlks: u16,
    pub drAlBlkSiz: i32,
    pub drClpSiz: i32,
    pub drAlBlSt: i16,
    pub drNxtCNID: i32,
    pub drFreeBks: u16,
    pub drVN: PString,
    pub drVolBkUp: DateTime,
    pub drVSeqNum: i16,
    pub drWrCnt: i32,
    pub drXTClpSiz: i32,
    pub drCTClpSiz: i32,
    pub drNmRtDirs: i16,
    pub drFilCnt: i32,
    pub drDirCnt: i32,
    pub drFndrInfo: [i32; 8],
    pub drVCSize: i16,
    pub drVBMCSize: i16,
    pub drCtlCSize: i16,
    pub drXTFlSize: i32,
    pub drXTExtRec: ExtDataRec,
    pub drCTFlSize: i32,
    pub drCTExtRec: ExtDataRec,
}

impl MDB {
    pub fn read(rdr: &mut SerialReadStorage) -> (r: Result<MDB, ReadError>)
        ensures
            r matches Ok(m) ==> old(rdr).has(162) && m.drSigWord == be16_at(old(rdr).bytes(), old(rdr).cursor()) as i16
                && m.drAlBlkSiz == be32_at(old(rdr).bytes(), old(rdr).cursor() + 20) as i32
                && m.drAlBlSt == be16_at(old(rdr).bytes(), old(rdr).cursor() + 28) as i16,
    {
        if !(rdr.pos() < rdr.size() && rdr.size() - rdr.pos() >= 162) {
            return Err(ReadError::UnexpectedEof);
        }
        let drSigWord = rdr.read_i16().unwrap();
        let drCrDate = DateTime::read(rdr).unwrap();
        let drLsMod = DateTime::read(rdr).unwrap();
        let drAtrb = rdr.read_i16().unwrap();
        let drNmFls = rdr.read_i16().unwrap();
        let drVBMSt = rdr.read_i16().unwrap();
        let drAllocPtr = rdr.read_i16().unwrap();
        let drNmAlBlks = rdr.read_u16().unwrap();
        let drAlBlkSiz = rdr.read_i32().unwrap();
        let drClpSiz = rdr.read_i32().unwrap();
        let drAlBlSt = rdr.read_i16().unwrap();
        let drNxtCNID = rdr.read_i32().unwrap();
        let drFreeBks = rdr.read_u16().unwrap();
        // the name has a fixed field of 28 bytes
        rdr.length_start(28);
        let drVN = PString::read(rdr);
        rdr.length_end();
        let drVN = drVN?;
        let drVolBkUp = DateTime::read(rdr).unwrap();
        let drVSeqNum = rdr.read_i16().unwrap();
        let drWrCnt = rdr.read_i32().unwrap();
        let drXTClpSiz = rdr.read_i32().unwrap();
        let drCTClpSiz = rdr.read_i32().unwrap();
        let drNmRtDirs = rdr.read_i16().unwrap();
        let drFilCnt = rdr.read_i32().unwrap();
        let drDirCnt = rdr.read_i32().unwrap();
        let f0 = rdr.read_i32().unwrap();
        let f1 = rdr.read_i32().unwrap();
        let f2 = rdr.read_i32().unwrap();
        let f3 = rdr.read_i32().unwrap();
        let f4 = rdr.read_i32().unwrap();
        let f5 = rdr.read_i32().unwrap();
        let f6 = rdr.read_i32().unwrap();
        let f7 = rdr.read_i32().unwrap();
        let drVCSize = rdr.read_i16().unwrap();
        let drVBMCSize = rdr.read_i16().unwrap();
        let drCtlCSize = rdr.read_i16().unwrap();
        let drXTFlSize = rdr.read_i32().unwrap();
        let drXTExtRec = read_extdatarec(rdr).unwrap();
        let drCTFlSize = rdr.read_i32().unwrap();
        let drCTExtRec = read_extdatarec(rdr).unwrap();
        Ok(MDB {
            drSigWord,
            drCrDate,
            drLsMod,
            drAtrb,
            drNmFls,
            drVBMSt,
            drAllocPtr,
            drNmAlBlks,
            drAlBlkSiz,
            drClpSiz,
            drAlBlSt,
            drNxtCNID,
            drFreeBks,
            drVN,
            drVolBkUp,
            drVSeqNum,
            drWrCnt,
            drXTClpSiz,
            drCTClpSiz,
            drNmRtDirs,
            drFilCnt,
            drDirCnt,
            drFndrInfo: [f0, f1, f2, f3, f4, f5, f6, f7],
            drVCSize,
            drVBMCSize,
            drCtlCSize,
            drXTFlSize,
            drXTExtRec,
            drCTFlSize,
            drCTExtRec,
        })
    }
}

/// Whether two byte strings are equal.
pub fn bytes_eq(a: &[u8], b: &[u8]) -> (r: bool)
    ensures
        r == (a@ == b@),
{
    if a.len() != b.len() {
        return false;
    }
    let mut i: usize = 0;
    while i < a.len()
        invariant
            a@.len() == b@.len(),
            i <= a@.len(),
            forall|j: int| 0 <= j < i ==> a@[j] == b@[j],
        decreases a@.len() - i,
    {
        if a[i] != b[i] {
            return false;
        }
        i += 1;
    }
    assert(a@ =~= b@);
    true
}

/// The parts of a colon-separated path, in order.
pub fn split_path(path: &[u8]) -> (r: Vec<Vec<u8>>)
    ensures
        r@.len() >= 1,
        forall|k: int, j: int| 0 <= k < r@.len() && 0 <= j < r@[k]@.len() ==> #[trigger] r@[k]@[j] != 0x3a,
{
    let mut parts: Vec<Vec<u8>> = Vec::new();
    let mut cur: Vec<u8> = Vec::new();
    let mut i: usize = 0;
    while i < path.len()
        invariant
            i <= path@.len(),
            forall|j: int| 0 <= j < cur@.len() ==> cur@[j] != 0x3a,
            forall|k: int, j: int| 0 <= k < parts@.len() && 0 <= j < parts@[k]@.len() ==> #[trigger] parts@[k]@[j] != 0x3a,
        decreases path@.len() - i,
    {
        if path[i] == 0x3a {
            parts.push(cur);
            cur = Vec::new();
        } else {
            cur.push(path[i]);
        }
        i += 1;
    }
    parts.push(cur);
    parts
}

/// The catalog B-tree.
#[derive(Debug)]
pub struct Catalog {
    btree: BTree,
}

/// The objects, directories and files, of one directory.
pub struct CatalogIterator<'a> {
    iter: BTreeIter<'a, CatKeyRec, CatDataRec>,
    dir: u32,
}

impl<'a> CatalogIterator<'a> {
    pub closed spec fn wf(&self) -> bool {
        self.iter.wf()
    }

    pub closed spec fn parent(&self) -> u32 {
        self.dir
    }

    /// Bound on the records still to come.
    pub closed spec fn measure(&self) -> nat {
        self.iter.measure()
    }

    /// The next object whose parent is the directory walked.
    pub fn next(&mut self) -> (r: Option<(CatKeyRec, CatDataRec)>)
        requires
            old(self).wf(),
        ensures
            final(self).wf(),
            final(self).parent() == old(self).parent(),
            r matches Some((k, d)) ==> k.ckrParID == old(self).parent() && (d is CdrDirRec
                || d is CdrFilRec),
            r is Some ==> final(self).measure() < old(self).measure(),
            final(self).measure() <= old(self).measure(),
    {
        loop
            invariant
                self.wf(),
                self.dir == old(self).dir,
                self.measure() <= old(self).measure(),
            decreases self.iter.measure(),
        {
            let ghost m0 = self.iter.measure();
            let n = self.iter.next();
            assert(n is Some ==> self.iter.measure() < m0);
            match n {
                Some((key, data)) => {
                    if data.is_object() && key.ckrParID == self.dir {
                        return Some((key, data));
                    }
                },
                None => return None,
            }
        }
    }
}

impl<'a> CatalogIterator<'a> {
    /// The next object named `name`; with `dir_only`, the next directory.
    pub fn find(&mut self, name: &[u8], dir_only: bool) -> (r: Option<CatDataRec>)
        requires
            old(self).wf(),
        ensures
            final(self).wf(),
            final(self).parent() == old(self).parent(),
            r matches Some(d) ==> (d is CdrDirRec || d is CdrFilRec) && (dir_only ==> d is CdrDirRec),
    {
        loop
            invariant
                self.wf(),
                self.parent() == old(self).parent(),
            decreases self.measure(),
        {
            let ghost m0 = self.measure();
            let n = self.next();
            assert(n is Some ==> self.measure() < m0);
            match n {
                Some((key, data)) => {
                    if bytes_eq(key.ckrCName.as_bytes(), name) && (!dir_only || matches!(data, CatDataRec::CdrDirRec(_))) {
                        return Some(data);
                    }
                },
                None => return None,
            }
        }
    }
}

impl Catalog {
    pub fn new(storage: &BlockAccess, datarec: &ExtDataRec) -> (r: Result<Catalog, ReadError>)
        requires
            storage.wf(),
    {
        let btree = BTree::new(storage, datarec)?;
        Ok(Catalog { btree })
    }

    /// Walks the objects of directory `dir`.
    pub fn dir<'a>(&self, storage: &'a BlockAccess, dir: u32) -> (r: CatalogIterator<'a>)
        requires
            storage.wf(),
        ensures
            r.wf(),
            r.parent() == dir,
    {
        CatalogIterator { iter: self.btree.iter(storage), dir }
    }

    /// The object at `path`: each part but the last names a directory inside
    /// the one before, starting from the root; the last names the object.
    pub fn locate(&self, storage: &BlockAccess, path: &[u8]) -> (r: Option<CatDataRec>)
        requires
            storage.wf(),
        ensures
            r matches Some(d) ==> d is CdrDirRec || d is CdrFilRec,
    {
        let parts = split_path(path);
        let last = parts.len() - 1;
        let mut iter = self.dir(storage, ROOT_DIR);
        let mut p: usize = 0;
        while p < parts.len()
            invariant
                storage.wf(),
                iter.wf(),
                last + 1 == parts@.len(),
                p <= parts@.len(),
            decreases parts@.len() - p,
        {
            let found = iter.find(parts[p].as_slice(), p < last);
            match found {
                Some(data) => {
                    if p == last {
                        return Some(data);
                    }
                    match data {
                        CatDataRec::CdrDirRec(d) => {
                            iter = self.dir(storage, d.dirDirID);
                        },
                        _ => return None,
                    }
                },
                None => return None,
            }
            p += 1;
        }
        None
    }
}

/// Where a seek counts from.
#[derive(PartialEq, Eq, Structural, Debug, Clone, Copy)]
pub enum SeekFrom {
    Start(u64),
    Current(i64),
    End(i64),
}

/// A cursor over one fork of a file, reading through the fork's extents.
pub struct FileIO<'a> {
    storage: &'a BlockAccess,
    size: u64,
    rec: ExtDataRec,
    cur: u64,
}

impl<'a> FileIO<'a> {
    pub closed spec fn blocks(&self) -> BlockAccess {
        *self.storage
    }

    /// Length of the fork.
    pub closed spec fn len(&self) -> int {
        self.size as int
    }

    /// Extents of the fork.
    pub closed spec fn extents(&self) -> Seq<ExtDescriptor> {
        self.rec.0@
    }

    /// The read position.
    pub closed spec fn position(&self) -> int {
        self.cur as int
    }

    pub open spec fn wf(&self) -> bool {
        self.blocks().wf() && self.position() <= self.len()
    }

    /// A cursor at the start of the fork of `size` bytes in extents `rec`.
    pub fn open(storage: &'a BlockAccess, size: u64, rec: ExtDataRec) -> (r: FileIO<'a>)
        requires
            storage.wf(),
        ensures
            r.wf(),
            r.blocks() == *storage,
            r.len() == size,
            r.extents() == rec.0@,
            r.position() == 0,
    {
        FileIO { storage, size, rec, cur: 0 }
    }

    /// Moves the position; a position outside the fork is refused.
    pub fn seek(&mut self, from: SeekFrom) -> (r: Result<u64, ReadError>)
        requires
            old(self).wf(),
        ensures
            final(self).wf(),
            final(self).blocks() == old(self).blocks(),
            final(self).len() == old(self).len(),
            final(self).extents() == old(self).extents(),
            ({
                let target = match from {
                    SeekFrom::Start(o) => o as int,
                    SeekFrom::Current(o) => o + old(self).position(),
                    SeekFrom::End(o) => o + old(self).len(),
                };
                &&& 0 <= target < old(self).len() ==> r == Ok::<u64, ReadError>(target as u64)
                    && final(self).position() == target
                &&& !(0 <= target < old(self).len()) ==> r is Err && final(self).position()
                    == old(self).position()
            }),
    {
        let target: i128 = match from {
            SeekFrom::Start(o) => o as i128,
            SeekFrom::Current(o) => o as i128 + self.cur as i128,
            SeekFrom::End(o) => o as i128 + self.size as i128,
        };
        if target < 0 || target >= self.size as i128 {
            Err(ReadError::InvalidData)
        } else {
            self.cur = target as u64;
            Ok(self.cur)
        }
    }

    /// Reads up to `len` bytes at the position, as many as the fork has
    /// left, and moves past them.
    pub fn read(&mut self, len: u64) -> (r: Result<Vec<u8>, ReadError>)
        requires
            old(self).wf(),
        ensures
            final(self).wf(),
            final(self).blocks() == old(self).blocks(),
            final(self).len() == old(self).len(),
            final(self).extents() == old(self).extents(),
            ({
                let n = if old(self).len() - old(self).position() < len {
                    old(self).len() - old(self).position()
                } else {
                    len as int
                };
                match extent_read(old(self).blocks().disk(), old(self).blocks().start(), old(self).blocks().block_size(), old(self).extents(), old(self).position(), n) {
                    Some(b) => r matches Ok(v) && v@ == b && final(self).position() == old(self).position() + b.len(),
                    None => r is Err && final(self).position() == old(self).position(),
                }
            }),
    {
        let left = self.size - self.cur;
        let n = if left < len { left } else { len };
        let data = self.storage.read_extdatarec(&self.rec, self.cur, n)?.to_vec();
        proof {
            extent_read_len(self.blocks().disk(), self.blocks().start(), self.blocks().block_size(), self.extents(), self.position(), n as int);
        }
        self.cur = self.cur + data.len() as u64;
        Ok(data)
    }
}

/// A read through extents gives at most the bytes asked for.
pub proof fn extent_read_len(disk: Seq<u8>, start: int, blk: int, exts: Seq<ExtDescriptor>, off: int, len: int)
    requires
        len >= 0,
    ensures
        extent_read(disk, start, blk, exts, off, len) matches Some(b) ==> b.len() <= len,
    decreases exts.len(),
{
    if exts.len() > 0 {
        let size = crate::hfs::ext_blocks(exts[0]) * blk;
        if off >= size {
            extent_read_len(disk, start, blk, exts.drop_first(), off - size, len);
        } else if off + len > size {
            extent_read_len(disk, start, blk, exts.drop_first(), 0, len - (size - off));
        }
    }
}

/// Directory id of the root directory.
pub const ROOT_DIR: u32 = 2;

/// A volume image held in memory.
pub struct HfsImage {
    storage: BlockAccess,
    pub mdb: MDB,
    pub catalog: Catalog,
}

impl HfsImage {
    /// Opens the volume in `image`: the master directory block is the third
    /// 512-byte sector; it must carry the signature and a positive
    /// allocation block size that is a multiple of 512.
    pub fn from(image: Vec<u8>) -> (r: Result<HfsImage, ReadError>)
        ensures
            image@.len() < 1024 + 512 ==> r is Err,
            r matches Ok(img) ==> img.wf(),
    {
        let rdr = SerialReadStorage::from(image);
        if rdr.size() < 1024 + 512 {
            return Err(ReadError::UnexpectedEof);
        }
        let mut mdb_block = rdr.sub_reader(1024, 512);
        let mdb = MDB::read(&mut mdb_block)?;
        if mdb.drSigWord != SIGNATURE || mdb.drAlBlkSiz <= 0 || mdb.drAlBlkSiz % 512 != 0 || mdb.drAlBlSt < 0 {
            return Err(ReadError::InvalidData);
        }
        let storage = BlockAccess::new(rdr.to_vec(), mdb.drAlBlSt as u64, mdb.drAlBlkSiz as u64);
        let catalog = Catalog::new(&storage, &mdb.drCTExtRec)?;
        Ok(HfsImage { storage, mdb, catalog })
    }

    pub closed spec fn wf(&self) -> bool {
        self.storage.wf()
    }

    /// Block access to the image.
    pub closed spec fn blocks(&self) -> BlockAccess {
        self.storage
    }

    /// The object at `path`, from the root directory.
    pub fn locate(&self, path: &[u8]) -> (r: Option<CatDataRec>)
        requires
            self.wf(),
        ensures
            r matches Some(d) ==> d is CdrDirRec || d is CdrFilRec,
    {
        self.catalog.locate(&self.storage, path)
    }

    /// The objects of directory `dir`, each with its key.
    pub fn dir_entries(&self, dir: u32) -> (r: Vec<(CatKeyRec, CatDataRec)>)
        requires
            self.wf(),
        ensures
            forall|i: int| 0 <= i < r@.len() ==> (#[trigger] r@[i]).0.ckrParID == dir,
    {
        let mut iter = self.catalog.dir(&self.storage, dir);
        let mut out: Vec<(CatKeyRec, CatDataRec)> = Vec::new();
        loop
            invariant
                iter.wf(),
                iter.parent() == dir,
                forall|i: int| 0 <= i < out@.len() ==> (#[trigger] out@[i]).0.ckrParID == dir,
            decreases iter.measure(),
        {
            let ghost m0 = iter.measure();
            let n = iter.next();
            assert(n is Some ==> iter.measure() < m0);
            match n {
                Some(entry) => out.push(entry),
                None => return out,
            }
        }
    }

    /// The data fork of file `f`.
    pub fn open(&self, f: &CdrFilRec) -> (r: Result<SerialReadStorage, ReadError>)
        requires
            self.wf(),
        ensures
            match extent_read(self.blocks().disk(), self.blocks().start(), self.blocks().block_size(), f.filExtRec.0@, 0, f.filLgLen as int) {
                Some(b) => r matches Ok(d) && d.bytes() == b,
                None => r is Err,
            },
    {
        self.storage.read_extdatarec(&f.filExtRec, 0, f.filLgLen as u64)
    }

    /// The resource fork of file `f`.
    pub fn open_rsrc(&self, f: &CdrFilRec) -> (r: Result<SerialReadStorage, ReadError>)
        requires
            self.wf(),
        ensures
            match extent_read(self.blocks().disk(), self.blocks().start(), self.blocks().block_size(), f.filRExtRec.0@, 0, f.filRLgLen as int) {
                Some(b) => r matches Ok(d) && d.bytes() == b,
                None => r is Err,
            },
    {
        self.storage.read_extdatarec(&f.filRExtRec, 0, f.filRLgLen as u64)
    }
}

} // verus!
