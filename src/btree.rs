//! B-trees of the volume format: the header node, leaf nodes of key and
//! value records, and a walk over the chain of leaves.

#![allow(non_snake_case)]

use vstd::prelude::*;
use crate::hfs::{BTreeNode, BlockAccess, ExtDataRec, NodeDescriptor};
use crate::serialization::{SerialReadStorage, SerialRead, ReadError};

verus! {

/// Bytes per B-tree node.
pub const NODE_SIZE: u64 = 512;

/// The header record of a B-tree.
#[derive(Debug)]
pub struct BTHdrRec {
    pub bthDepth: u16,
    pub bthRoot: u32,
    pub bthNRecs: u32,
    pub bthFNode: u32,
    pub bthLNode: u32,
    pub bthNodeSize: u16,
    pub bthKeyLen: u16,
    pub bthNNodes: u32,
    pub bthFree: u32,
    pub bthResv: Vec<u32>,
}

impl BTHdrRec {
    pub fn read(rdr: &mut SerialReadStorage) -> (r: Result<BTHdrRec, ReadError>)
        ensures
            final(rdr).bytes() == old(rdr).bytes(),
            old(rdr).has(106) ==> (r matches Ok(h) && h.bthFNode == crate::rsrc::be32_at(
                old(rdr).bytes(),
                old(rdr).cursor() + 10,
            ) && h.bthNNodes == crate::rsrc::be32_at(old(rdr).bytes(), old(rdr).cursor() + 22)
                && h.bthResv@.len() == 19),
            !old(rdr).has(106) ==> r is Err,
    {
        if !(rdr.pos() < rdr.size() && rdr.size() - rdr.pos() >= 106) {
            return Err(ReadError::UnexpectedEof);
        }
        let bthDepth = rdr.read_u16().unwrap();
        let bthRoot = rdr.read_u32().unwrap();
        let bthNRecs = rdr.read_u32().unwrap();
        let bthFNode = rdr.read_u32().unwrap();
        let bthLNode = rdr.read_u32().unwrap();
        let bthNodeSize = rdr.read_u16().unwrap();
        let bthKeyLen = rdr.read_u16().unwrap();
        let bthNNodes = rdr.read_u32().unwrap();
        let bthFree = rdr.read_u32().unwrap();
        let mut bthResv: Vec<u32> = Vec::new();
        let mut i: usize = 0;
        while i < 19
            invariant
                i <= 19,
                bthResv@.len() == i,
                rdr.bytes() == old(rdr).bytes(),
                rdr.cursor() == old(rdr).cursor() + 30 + 4 * i,
                old(rdr).has(106),
            decreases 19 - i,
        {
            bthResv.push(rdr.read_u32().unwrap());
            i += 1;
        }
        Ok(BTHdrRec {
            bthDepth,
            bthRoot,
            bthNRecs,
            bthFNode,
            bthLNode,
            bthNodeSize,
            bthKeyLen,
            bthNNodes,
            bthFree,
            bthResv,
        })
    }
}

/// The header node: node type 1, three records, the first the header
/// record.
#[derive(Debug)]
pub struct BTreeHeaderNode {
    pub nd: NodeDescriptor,
    pub header: BTHdrRec,
}

impl BTreeHeaderNode {
    pub fn new(rdr: &mut SerialReadStorage) -> (r: Result<BTreeHeaderNode, ReadError>)
        ensures
            r matches Ok(h) ==> h.nd.ndType == 1 && h.nd.ndNRecs == 3,
    {
        let mut node = BTreeNode::new(rdr)?;
        if node.nd.ndType != 1 || node.nd.ndNRecs != 3 {
            return Err(ReadError::InvalidData);
        }
        let header = BTHdrRec::read(&mut node.recs[0])?;
        Ok(BTreeHeaderNode { nd: node.nd, header })
    }
}

/// A leaf node: node type -1, each record a key and, after padding to an
/// even offset, a value. Records that do not decode are left out.
#[derive(Debug)]
pub struct BTreeLeafNode<K, V> {
    pub nd: NodeDescriptor,
    pub recs: Vec<(K, V)>,
}

impl<K: SerialRead, V: SerialRead> BTreeLeafNode<K, V> {
    pub fn new(rdr: &mut SerialReadStorage) -> (r: Result<BTreeLeafNode<K, V>, ReadError>)
        ensures
            r matches Ok(l) ==> l.nd.ndType == -1 && l.recs@.len() <= l.nd.ndNRecs && l.recs@.len() <= 0xffff,
    {
        let node = BTreeNode::new(rdr)?;
        if node.nd.ndType != -1 {
            return Err(ReadError::InvalidData);
        }
        let nd = node.nd;
        let mut raw = node.recs;
        let mut recs: Vec<(K, V)> = Vec::new();
        let mut i: usize = 0;
        while i < raw.len()
            invariant
                raw@.len() == nd.ndNRecs,
                i <= raw@.len(),
                recs@.len() <= i,
            decreases raw@.len() - i,
        {
            let rec = &mut raw[i];
            if let Ok(key) = K::read(rec) {
                if rec.pos() < u64::MAX {
                    rec.align(2);
                    if let Ok(val) = V::read(rec) {
                        recs.push((key, val));
                    }
                }
            }
            i += 1;
        }
        Ok(BTreeLeafNode { nd, recs })
    }
}

/// A B-tree stored in the extents of a file.
#[derive(Debug)]
pub struct BTree {
    datarec: ExtDataRec,
    header: BTreeHeaderNode,
}

/// Reads node `blknum` of the tree in `datarec`.
fn read_node(storage: &BlockAccess, datarec: &ExtDataRec, blknum: u32) -> (r: Result<SerialReadStorage, ReadError>)
    requires
        storage.wf(),
{
    storage.read_extdatarec(datarec, blknum as u64 * NODE_SIZE, NODE_SIZE)
}

impl BTree {
    pub closed spec fn first_leaf(&self) -> u32 {
        self.header.header.bthFNode
    }

    pub closed spec fn node_count(&self) -> u32 {
        self.header.header.bthNNodes
    }

    /// Opens the tree whose file has the extents `datarec`: node 0 is the
    /// header node.
    pub fn new(storage: &BlockAccess, datarec: &ExtDataRec) -> (r: Result<BTree, ReadError>)
        requires
            storage.wf(),
    {
        let mut headerblock = read_node(storage, datarec, 0)?;
        let header = BTreeHeaderNode::new(&mut headerblock)?;
        Ok(BTree { datarec: *datarec, header })
    }

    /// Walks the leaves from the first.
    pub fn iter<'a, K: SerialRead, V: SerialRead>(&self, storage: &'a BlockAccess) -> (r: BTreeIter<'a, K, V>)
        requires
            storage.wf(),
        ensures
            r.wf(),
    {
        BTreeIter::<'a, K, V>::from_block(storage, self.datarec, self.header.header.bthFNode, self.header.header.bthNNodes as u64)
    }
}

/// A walk over the records of a B-tree's leaves, in order. It reads at most
/// as many nodes as the tree has, so it ends even on a damaged tree.
pub struct BTreeIter<'a, K, V> {
    storage: &'a BlockAccess,
    datarec: ExtDataRec,
    nd: NodeDescriptor,
    recs: Vec<(K, V)>,
    budget: u64,
}

impl<'a, K: SerialRead, V: SerialRead> BTreeIter<'a, K, V> {
    pub closed spec fn wf(&self) -> bool {
        self.storage.wf() && self.recs@.len() <= 0xffff
    }

    /// Bound on the records still to come: it falls with each one.
    pub closed spec fn measure(&self) -> nat {
        (self.budget * 0x1_0000 + self.recs@.len()) as nat
    }

    /// The walk from leaf `blknum`, with at most `budget` more nodes to read.
    fn from_block(storage: &'a BlockAccess, datarec: ExtDataRec, blknum: u32, budget: u64) -> (r: BTreeIter<'a, K, V>)
        requires
            storage.wf(),
        ensures
            r.wf(),
            budget > 0 ==> r.measure() < budget * 0x1_0000,
            budget == 0 ==> r.measure() == 0,
    {
        let empty = NodeDescriptor { ndFLink: 0, ndBLink: 0, ndType: 0, ndNHeight: 0, ndNRecs: 0, ndResv2: 0 };
        if budget == 0 {
            return BTreeIter { storage, datarec, nd: empty, recs: Vec::new(), budget: 0 };
        }
        let node = match read_node(storage, &datarec, blknum) {
            Ok(mut blk) => BTreeLeafNode::<K, V>::new(&mut blk),
            Err(e) => Err(e),
        };
        match node {
            Ok(node) => {
                let mut recs = node.recs;
                // kept last-first, so that each step pops
                let mut rev: Vec<(K, V)> = Vec::new();
                while recs.len() > 0
                    invariant
                        rev@.len() + recs@.len() == node.recs@.len(),
                        node.recs@.len() <= 0xffff,
                    decreases recs@.len(),
                {
                    let x = recs.pop().unwrap();
                    rev.push(x);
                }
                let recs = rev;
                BTreeIter { storage, datarec, nd: node.nd, recs, budget: budget - 1 }
            },
            Err(_) => BTreeIter { storage, datarec, nd: empty, recs: Vec::new(), budget: 0 },
        }
    }

    /// The next record, moving on to the next leaf when this one is done.
    pub fn next(&mut self) -> (r: Option<(K, V)>)
        requires
            old(self).wf(),
        ensures
            final(self).wf(),
            r is Some ==> final(self).measure() < old(self).measure(),
            final(self).measure() <= old(self).measure(),
    {
        if let Some(elem) = self.recs.pop() {
            return Some(elem);
        }
        if self.nd.ndFLink == 0 || self.budget == 0 {
            return None;
        }
        let next = BTreeIter::<'a, K, V>::from_block(self.storage, self.datarec, self.nd.ndFLink, self.budget);
        *self = next;
        self.recs.pop()
    }
}

} // verus!
