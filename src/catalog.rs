//! Records of the volume's catalog B-tree: keys, directory, file and thread
//! records, with the Finder information they carry.

#![allow(non_snake_case)]

use vstd::prelude::*;
use crate::hfs::{ExtDataRec, ExtDescriptor};
use crate::serialization::{SerialReadStorage, SerialRead, ReadError};
use crate::types::{OSType, PString, DateTime};

verus! {

/// Whether `rdr` moved on by `n` bytes, or, when fewer were left, failed.
pub open spec fn fixed_read<T>(old: &SerialReadStorage, new: &SerialReadStorage, r: Result<T, ReadError>, n: int) -> bool {
    &&& new.bytes() == old.bytes()
    &&& old.has(n) ==> r is Ok && new.advanced(old, n)
    &&& !old.has(n) ==> r is Err
}

/// Fails unless `n` bytes are left.
fn need(rdr: &SerialReadStorage, n: u64) -> (r: bool)
    ensures
        r == rdr.has(n as int),
{
    rdr.pos() <= rdr.size() && rdr.size() - rdr.pos() >= n
}

pub fn read_extdatarec(rdr: &mut SerialReadStorage) -> (r: Result<ExtDataRec, ReadError>)
    ensures
        fixed_read(old(rdr), final(rdr), r, 12),
        final(rdr).marks() == old(rdr).marks(),
{
    if !need(rdr, 12) {
        return Err(ReadError::UnexpectedEof);
    }
    let a = ExtDescriptor { xdrStABN: rdr.read_u16().unwrap(), xdrNumABlks: rdr.read_i16().unwrap() };
    let b = ExtDescriptor { xdrStABN: rdr.read_u16().unwrap(), xdrNumABlks: rdr.read_i16().unwrap() };
    let c = ExtDescriptor { xdrStABN: rdr.read_u16().unwrap(), xdrNumABlks: rdr.read_i16().unwrap() };
    Ok(ExtDataRec([a, b, c]))
}

/// A point: vertical, then horizontal coordinate.
#[derive(Debug, Clone, Copy)]
pub struct Point {
    pub v: i16,
    pub h: i16,
}

impl Point {
    pub fn read(rdr: &mut SerialReadStorage) -> (r: Result<Point, ReadError>)
        ensures
            fixed_read(old(rdr), final(rdr), r, 4),
            final(rdr).marks() == old(rdr).marks(),
    {
        if !need(rdr, 4) {
            return Err(ReadError::UnexpectedEof);
        }
        let v = rdr.read_i16().unwrap();
        let h = rdr.read_i16().unwrap();
        Ok(Point { v, h })
    }
}

#[derive(Debug, Clone, Copy)]
pub struct Rect {
    pub topLeft: Point,
    pub botRight: Point,
}

impl Rect {
    pub fn read(rdr: &mut SerialReadStorage) -> (r: Result<Rect, ReadError>)
        ensures
            fixed_read(old(rdr), final(rdr), r, 8),
            final(rdr).marks() == old(rdr).marks(),
    {
        if !need(rdr, 8) {
            return Err(ReadError::UnexpectedEof);
        }
        let topLeft = Point::read(rdr).unwrap();
        let botRight = Point::read(rdr).unwrap();
        Ok(Rect { topLeft, botRight })
    }
}

/// Finder information of a file.
#[derive(Debug, Clone, Copy)]
pub struct FInfo {
    pub fdType: OSType,
    pub fdCreator: OSType,
    pub fdFlags: u16,
    pub fdLocation: Point,
    pub fdFldr: u16,
}

impl FInfo {
    pub fn read(rdr: &mut SerialReadStorage) -> (r: Result<FInfo, ReadError>)
        ensures
            fixed_read(old(rdr), final(rdr), r, 16),
            final(rdr).marks() == old(rdr).marks(),
    {
        if !need(rdr, 16) {
            return Err(ReadError::UnexpectedEof);
        }
        let fdType = OSType::read(rdr).unwrap();
        let fdCreator = OSType::read(rdr).unwrap();
        let fdFlags = rdr.read_u16().unwrap();
        let fdLocation = Point::read(rdr).unwrap();
        let fdFldr = rdr.read_u16().unwrap();
        Ok(FInfo { fdType, fdCreator, fdFlags, fdLocation, fdFldr })
    }
}

/// Additional Finder information of a file.
#[derive(Debug, Clone, Copy)]
pub struct FXInfo {
    pub fdIconID: i16,
    pub fdUnused: [i16; 3],
    pub fdScript: i8,
    pub fdXFlags: i8,
    pub fdComment: i16,
    pub fdPutAway: u32,
}

impl FXInfo {
    pub fn read(rdr: &mut SerialReadStorage) -> (r: Result<FXInfo, ReadError>)
        ensures
            fixed_read(old(rdr), final(rdr), r, 16),
            final(rdr).marks() == old(rdr).marks(),
    {
        if !need(rdr, 16) {
            return Err(ReadError::UnexpectedEof);
        }
        let fdIconID = rdr.read_i16().unwrap();
        let u0 = rdr.read_i16().unwrap();
        let u1 = rdr.read_i16().unwrap();
        let u2 = rdr.read_i16().unwrap();
        let fdScript = rdr.read_i8().unwrap();
        let fdXFlags = rdr.read_i8().unwrap();
        let fdComment = rdr.read_i16().unwrap();
        let fdPutAway = rdr.read_u32().unwrap();
        Ok(FXInfo { fdIconID, fdUnused: [u0, u1, u2], fdScript, fdXFlags, fdComment, fdPutAway })
    }
}

/// Finder information of a directory.
#[derive(Debug, Clone, Copy)]
pub struct DInfo {
    pub frRect: Rect,
    pub frFlags: u16,
    pub frLocation: Point,
    pub frView: u16,
}

impl DInfo {
    pub fn read(rdr: &mut SerialReadStorage) -> (r: Result<DInfo, ReadError>)
        ensures
            fixed_read(old(rdr), final(rdr), r, 16),
            final(rdr).marks() == old(rdr).marks(),
    {
        if !need(rdr, 16) {
            return Err(ReadError::UnexpectedEof);
        }
        let frRect = Rect::read(rdr).unwrap();
        let frFlags = rdr.read_u16().unwrap();
        let frLocation = Point::read(rdr).unwrap();
        let frView = rdr.read_u16().unwrap();
        Ok(DInfo { frRect, frFlags, frLocation, frView })
    }
}

/// Additional Finder information of a directory.
#[derive(Debug, Clone, Copy)]
pub struct DXInfo {
    pub frScroll: Point,
    pub frOpenChain: u32,
    pub frScript: i8,
    pub frXFlags: u8,
    pub frComment: i16,
    pub frPutAway: u32,
}

impl DXInfo {
    pub fn read(rdr: &mut SerialReadStorage) -> (r: Result<DXInfo, ReadError>)
        ensures
            fixed_read(old(rdr), final(rdr), r, 16),
            final(rdr).marks() == old(rdr).marks(),
    {
        if !need(rdr, 16) {
            return Err(ReadError::UnexpectedEof);
        }
        let frScroll = Point::read(rdr).unwrap();
        let frOpenChain = rdr.read_u32().unwrap();
        let frScript = rdr.read_i8().unwrap();
        let frXFlags = rdr.read_u8().unwrap();
        let frComment = rdr.read_i16().unwrap();
        let frPutAway = rdr.read_u32().unwrap();
        Ok(DXInfo { frScroll, frOpenChain, frScript, frXFlags, frComment, frPutAway })
    }
}

/// The key of a catalog record: the parent directory and the name.
#[derive(Debug)]
pub struct CatKeyRec {
    pub ckrKeyLen: u8,
    pub ckrResrv1: u8,
    pub ckrParID: u32,
    pub ckrCName: PString,
}

impl CatKeyRec {
    pub fn read(rdr: &mut SerialReadStorage) -> (r: Result<CatKeyRec, ReadError>)
        ensures
            final(rdr).bytes() == old(rdr).bytes(),
            final(rdr).marks() == old(rdr).marks(),
            r matches Ok(k) ==> old(rdr).has(6) && k.ckrParID == crate::rsrc::be32_at(
                old(rdr).bytes(),
                old(rdr).cursor() + 2,
            ),
    {
        if !need(rdr, 6) {
            return Err(ReadError::UnexpectedEof);
        }
        let ckrKeyLen = rdr.read_u8().unwrap();
        let ckrResrv1 = rdr.read_u8().unwrap();
        let ckrParID = rdr.read_u32().unwrap();
        let ckrCName = PString::read(rdr)?;
        Ok(CatKeyRec { ckrKeyLen, ckrResrv1, ckrParID, ckrCName })
    }
}

impl SerialRead for CatKeyRec {
    fn read(rdr: &mut SerialReadStorage) -> (r: Result<CatKeyRec, ReadError>) {
        CatKeyRec::read(rdr)
    }
}

/// A directory record.
#[derive(Debug, Clone, Copy)]
pub struct CdrDirRec {
    pub dirFlags: u16,
    pub dirVal: i16,
    pub dirDirID: u32,
    pub dirCrDat: DateTime,
    pub dirMdDat: DateTime,
    pub dirBkDat: DateTime,
    pub dirUsrInfo: DInfo,
    pub dirFndrInfo: DXInfo,
    pub dirResrv: [u32; 4],
}

impl CdrDirRec {
    pub fn read(rdr: &mut SerialReadStorage) -> (r: Result<CdrDirRec, ReadError>)
        ensures
            fixed_read(old(rdr), final(rdr), r, 68),
            final(rdr).marks() == old(rdr).marks(),
            r matches Ok(d) ==> d.dirDirID == crate::rsrc::be32_at(old(rdr).bytes(), old(rdr).cursor() + 4),
    {
        if !need(rdr, 68) {
            return Err(ReadError::UnexpectedEof);
        }
        let dirFlags = rdr.read_u16().unwrap();
        let dirVal = rdr.read_i16().unwrap();
        let dirDirID = rdr.read_u32().unwrap();
        let dirCrDat = DateTime::read(rdr).unwrap();
        let dirMdDat = DateTime::read(rdr).unwrap();
        let dirBkDat = DateTime::read(rdr).unwrap();
        let dirUsrInfo = DInfo::read(rdr).unwrap();
        let dirFndrInfo = DXInfo::read(rdr).unwrap();
        let r0 = rdr.read_u32().unwrap();
        let r1 = rdr.read_u32().unwrap();
        let r2 = rdr.read_u32().unwrap();
        let r3 = rdr.read_u32().unwrap();
        Ok(CdrDirRec {
            dirFlags,
            dirVal,
            dirDirID,
            dirCrDat,
            dirMdDat,
            dirBkDat,
            dirUsrInfo,
            dirFndrInfo,
            dirResrv: [r0, r1, r2, r3],
        })
    }
}

/// A file record.
#[derive(Debug, Clone, Copy)]
pub struct CdrFilRec {
    pub filFlags: u8,
    pub filTyp: u8,
    pub filUsrWds: FInfo,
    pub filFlNum: u32,
    pub filStBlk: u16,
    pub filLgLen: u32,
    pub filPyLen: u32,
    pub filRStBlk: u16,
    pub filRLgLen: u32,
    pub filRPyLen: u32,
    pub filCrDat: DateTime,
    pub filMdDat: DateTime,
    pub filBkDat: DateTime,
    pub filFndrInfo: FXInfo,
    pub filClpSize: u16,
    pub filExtRec: ExtDataRec,
    pub filRExtRec: ExtDataRec,
    pub filResrv: u32,
}

impl CdrFilRec {
    pub fn read(rdr: &mut SerialReadStorage) -> (r: Result<CdrFilRec, ReadError>)
        ensures
            fixed_read(old(rdr), final(rdr), r, 100),
            final(rdr).marks() == old(rdr).marks(),
    {
        if !need(rdr, 100) {
            return Err(ReadError::UnexpectedEof);
        }
        let filFlags = rdr.read_u8().unwrap();
        let filTyp = rdr.read_u8().unwrap();
        let filUsrWds = FInfo::read(rdr).unwrap();
        let filFlNum = rdr.read_u32().unwrap();
        let filStBlk = rdr.read_u16().unwrap();
        let filLgLen = rdr.read_u32().unwrap();
        let filPyLen = rdr.read_u32().unwrap();
        let filRStBlk = rdr.read_u16().unwrap();
        let filRLgLen = rdr.read_u32().unwrap();
        let filRPyLen = rdr.read_u32().unwrap();
        let filCrDat = DateTime::read(rdr).unwrap();
        let filMdDat = DateTime::read(rdr).unwrap();
        let filBkDat = DateTime::read(rdr).unwrap();
        let filFndrInfo = FXInfo::read(rdr).unwrap();
        let filClpSize = rdr.read_u16().unwrap();
        let filExtRec = read_extdatarec(rdr).unwrap();
        let filRExtRec = read_extdatarec(rdr).unwrap();
        let filResrv = rdr.read_u32().unwrap();
        Ok(CdrFilRec {
            filFlags,
            filTyp,
            filUsrWds,
            filFlNum,
            filStBlk,
            filLgLen,
            filPyLen,
            filRStBlk,
            filRLgLen,
            filRPyLen,
            filCrDat,
            filMdDat,
            filBkDat,
            filFndrInfo,
            filClpSize,
            filExtRec,
            filRExtRec,
            filResrv,
        })
    }
}

/// A thread record: the parent and name of a directory or file.
#[derive(Debug)]
pub struct CdrThdRec {
    pub thdResrv: [u32; 2],
    pub thdParID: u32,
    pub thdCName: PString,
}

impl CdrThdRec {
    pub fn read(rdr: &mut SerialReadStorage) -> (r: Result<CdrThdRec, ReadError>)
        ensures
            final(rdr).bytes() == old(rdr).bytes(),
            final(rdr).marks() == old(rdr).marks(),
            r is Ok ==> old(rdr).has(12),
    {
        if !need(rdr, 12) {
            return Err(ReadError::UnexpectedEof);
        }
        let r0 = rdr.read_u32().unwrap();
        let r1 = rdr.read_u32().unwrap();
        let thdParID = rdr.read_u32().unwrap();
        let thdCName = PString::read(rdr)?;
        Ok(CdrThdRec { thdResrv: [r0, r1], thdParID, thdCName })
    }
}

/// A catalog record, by the type byte that starts it.
#[derive(Debug)]
pub enum CatDataRec {
    CdrDirRec(CdrDirRec),
    CdrFilRec(CdrFilRec),
    CdrThdRec(CdrThdRec),
    CdrFThdRec(CdrThdRec),
}

impl CatDataRec {
    /// Reads the type byte and a reserved byte, then the record of that
    /// type: 1 directory, 2 file, 3 directory thread, 4 file thread.
    pub fn read(rdr: &mut SerialReadStorage) -> (r: Result<CatDataRec, ReadError>)
        ensures
            final(rdr).bytes() == old(rdr).bytes(),
            final(rdr).marks() == old(rdr).marks(),
            r matches Ok(d) ==> old(rdr).has(2) && match d {
                CatDataRec::CdrDirRec(_) => old(rdr).peek(0) == 1,
                CatDataRec::CdrFilRec(_) => old(rdr).peek(0) == 2,
                CatDataRec::CdrThdRec(_) => old(rdr).peek(0) == 3,
                CatDataRec::CdrFThdRec(_) => old(rdr).peek(0) == 4,
            },
            old(rdr).has(2) && !(1 <= old(rdr).peek(0) <= 4) ==> r == Err::<CatDataRec, ReadError>(ReadError::InvalidData),
    {
        if !need(rdr, 2) {
            return Err(ReadError::UnexpectedEof);
        }
        let cdrType = rdr.read_u8().unwrap();
        let _cdrResrv2 = rdr.read_i8().unwrap();
        match cdrType {
            1 => Ok(CatDataRec::CdrDirRec(CdrDirRec::read(rdr)?)),
            2 => Ok(CatDataRec::CdrFilRec(CdrFilRec::read(rdr)?)),
            3 => Ok(CatDataRec::CdrThdRec(CdrThdRec::read(rdr)?)),
            4 => Ok(CatDataRec::CdrFThdRec(CdrThdRec::read(rdr)?)),
            _ => Err(ReadError::InvalidData),
        }
    }

    /// Directories and files are objects; threads are not.
    pub fn is_object(&self) -> (r: bool)
        ensures
            r == (self is CdrDirRec || self is CdrFilRec),
    {
        match self {
            CatDataRec::CdrDirRec(_) => true,
            CatDataRec::CdrFilRec(_) => true,
            CatDataRec::CdrThdRec(_) => false,
            CatDataRec::CdrFThdRec(_) => false,
        }
    }
}

impl SerialRead for CatDataRec {
    fn read(rdr: &mut SerialReadStorage) -> (r: Result<CatDataRec, ReadError>) {
        CatDataRec::read(rdr)
    }
}

} // verus!
