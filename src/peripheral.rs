//! RAM that answers for its own address range: accesses are by absolute
//! address and fail outside the range.

use vstd::prelude::*;
use crate::range::AddressRange;

verus! {

/// RAM covering exactly `range`.
pub struct RAM {
    range: AddressRange,
    content: Vec<u8>,
}

impl RAM {
    pub closed spec fn range_spec(&self) -> AddressRange {
        self.range
    }

    pub closed spec fn bytes(&self) -> Seq<u8> {
        self.content@
    }

    /// The content spans the range.
    pub open spec fn wf(&self) -> bool {
        &&& self.range_spec().wf()
        &&& self.bytes().len() == self.range_spec().address_end - self.range_spec().address_start + 1
    }

    /// RAM over `range`, every byte 0xff.
    pub fn new(range: AddressRange) -> (r: RAM)
        requires
            range.wf(),
            range.address_end - range.address_start + 1 <= usize::MAX,
        ensures
            r.wf(),
            r.range_spec() == range,
            r.bytes() == Seq::new(r.bytes().len(), |i: int| 0xffu8),
    {
        let size = range.size();
        let content = vec![0xffu8; size];
        let r = RAM { range, content };
        assert(r.bytes() =~= Seq::new(r.bytes().len(), |i: int| 0xffu8));
        r
    }

    /// The `size` bytes at `address`, when the range holds all of them.
    pub fn mem_read(&self, address: u32, size: usize) -> (r: Option<&[u8]>)
        requires
            self.wf(),
        ensures
            self.range_spec().holds_span(address, size as int) ==> (r matches Some(s) && s@
                == self.bytes().subrange(
                address - self.range_spec().address_start,
                address - self.range_spec().address_start + size,
            )),
            !self.range_spec().holds_span(address, size as int) ==> r is None,
    {
        match self.range.map(address, size) {
            Some(off) => {
                let off = off as usize;
                assert(self.range.holds_span(address, size as int));
                let n = self.content.len();
                assert(off + size <= n);
                Some(vstd::slice::slice_subrange(self.content.as_slice(), off, off + size))
            },
            None => None,
        }
    }

    /// Writes `data` at `address`, when the range holds all of it.
    pub fn mem_write(&mut self, address: u32, data: &[u8]) -> (r: Option<()>)
        requires
            old(self).wf(),
        ensures
            final(self).wf(),
            final(self).range_spec() == old(self).range_spec(),
            old(self).range_spec().holds_span(address, data@.len() as int) ==> r is Some
                && final(self).bytes() == old(self).bytes().subrange(
                0,
                address - old(self).range_spec().address_start,
            ) + data@ + old(self).bytes().subrange(
                address - old(self).range_spec().address_start + data@.len(),
                old(self).bytes().len() as int,
            ),
            !old(self).range_spec().holds_span(address, data@.len() as int) ==> r is None
                && final(self).bytes() == old(self).bytes(),
    {
        match self.range.map(address, data.len()) {
            Some(off) => {
                let off = off as usize;
                assert(self.range.holds_span(address, data@.len() as int));
                let n = self.content.len();
                assert(off + data@.len() <= n);
                let ghost c0 = self.content@;
                let mut i: usize = 0;
                while i < data.len()
                    invariant
                        off + data@.len() <= c0.len(),
                        c0.len() == n,
                        self.content@.len() == c0.len(),
                        self.range == old(self).range,
                        0 <= i <= data@.len(),
                        forall|k: int| 0 <= k < off ==> #[trigger] self.content@[k] == c0[k],
                        forall|k: int| off <= k < off + i ==> #[trigger] self.content@[k] == data@[k - off],
                        forall|k: int| off + i <= k < c0.len() ==> #[trigger] self.content@[k] == c0[k],
                    decreases data@.len() - i,
                {
                    self.content.set(off + i, data[i]);
                    i += 1;
                }
                assert(self.content@ =~= c0.subrange(0, off as int) + data@ + c0.subrange(
                    off + data@.len(),
                    c0.len() as int,
                ));
                Some(())
            },
            None => None,
        }
    }
}

} // verus!
