//! The address-space router: an ordered table of windows, each owned by a
//! memory handler. An access goes to the first window holding all of it, at
//! the offset of the address in that window; an access no window holds reads
//! as all-ones and writes nowhere.

use vstd::prelude::*;
use crate::mem::{RAM, ROM, load, store, combine, ones, valid_size, lemma_load_store};
use crate::prefix::{Prefix, PrefixMap, first_holding, lemma_first_holding, lemma_first_holding_windows};
use crate::segment_loader::SegmentLoader;

verus! {

/// A memory handler: passive RAM, read-only ROM, or the segment loader.
pub enum MemHandler {
    Ram(RAM),
    Rom(ROM),
    Loader(SegmentLoader),
}

/// The contents of a handler as far as memory accesses see them.
pub enum HandlerView {
    Ram(Seq<u8>),
    Rom(Seq<u8>),
    Loader(SegmentLoader),
}

/// What a load of `size` bytes at `off` of a handler reads.
pub open spec fn handler_load(h: HandlerView, off: int, size: u32) -> u32 {
    match h {
        HandlerView::Ram(b) => load(b, off, size),
        HandlerView::Rom(b) => load(b, off, size),
        HandlerView::Loader(l) => combine(|i: int| l.byte_spec(i), off, size),
    }
}

/// A handler after a store of `v` as `size` bytes at `off`: only RAM takes it.
pub open spec fn handler_store(h: HandlerView, off: int, size: u32, v: u32) -> HandlerView {
    match h {
        HandlerView::Ram(b) => HandlerView::Ram(store(b, off, size, v)),
        _ => h,
    }
}

/// Offset of `address` in `window`.
pub open spec fn offset_in(window: Prefix, address: u32) -> u32 {
    address & !window.mask
}

/// What a read of `size` bytes at `address` gives on the table `mem`.
pub open spec fn read_view(mem: Seq<(Prefix, HandlerView)>, address: u32, size: u32) -> u32 {
    match first_holding(mem, address, size as int) {
        Some(i) => handler_load(mem[i].1, offset_in(mem[i].0, address) as int, size),
        None => ones(size),
    }
}

/// The table `mem` after a write of `v` as `size` bytes at `address`.
pub open spec fn write_view(mem: Seq<(Prefix, HandlerView)>, address: u32, size: u32, v: u32) -> Seq<(Prefix, HandlerView)> {
    match first_holding(mem, address, size as int) {
        Some(i) => mem.update(
            i,
            (mem[i].0, handler_store(mem[i].1, offset_in(mem[i].0, address) as int, size, v)),
        ),
        None => mem,
    }
}

/// Whether the access of `size` bytes at `address` goes to RAM, inside its
/// contents.
pub open spec fn ram_backed(mem: Seq<(Prefix, HandlerView)>, address: u32, size: u32) -> bool {
    match first_holding(mem, address, size as int) {
        Some(i) => match mem[i].1 {
            HandlerView::Ram(b) => offset_in(mem[i].0, address) + size <= b.len(),
            _ => false,
        },
        None => false,
    }
}

impl MemHandler {
    pub open spec fn view(&self) -> HandlerView {
        match self {
            MemHandler::Ram(r) => HandlerView::Ram(r.bytes()),
            MemHandler::Rom(r) => HandlerView::Rom(r.bytes()),
            MemHandler::Loader(l) => HandlerView::Loader(*l),
        }
    }

    pub open spec fn wf(&self) -> bool {
        match self {
            MemHandler::Loader(l) => l.wf(),
            _ => true,
        }
    }

    pub fn read(&self, offset: u32, size: u32) -> (r: u32)
        requires
            self.wf(),
            valid_size(size),
        ensures
            r == handler_load(self.view(), offset as int, size),
    {
        match self {
            MemHandler::Ram(m) => m.read(offset, size),
            MemHandler::Rom(m) => m.read(offset, size),
            MemHandler::Loader(l) => l.read(offset, size),
        }
    }

    /// Stores into RAM; ROM and the code window ignore writes.
    pub fn write(&mut self, offset: u32, size: u32, value: u32)
        requires
            valid_size(size),
        ensures
            final(self).view() == handler_store(old(self).view(), offset as int, size, value),
            final(self).wf() == old(self).wf(),
    {
        match self {
            MemHandler::Ram(m) => m.write(offset, size, value),
            MemHandler::Rom(_) => {},
            MemHandler::Loader(_) => {},
        }
    }
}

/// The router.
pub struct MuxAddressBus {
    children: PrefixMap<MemHandler>,
}

impl View for MuxAddressBus {
    type V = Seq<(Prefix, HandlerView)>;

    closed spec fn view(&self) -> Seq<(Prefix, HandlerView)> {
        self.children@.map_values(|e: (Prefix, MemHandler)| (e.0, e.1.view()))
    }
}

impl MuxAddressBus {
    /// Every handler is well formed.
    pub closed spec fn wf(&self) -> bool {
        forall|i: int| 0 <= i < self.children@.len() ==> (#[trigger] self.children@[i]).1.wf()
    }

    pub fn new() -> (r: MuxAddressBus)
        ensures
            r@ == Seq::<(Prefix, HandlerView)>::empty(),
            r.wf(),
    {
        let r = MuxAddressBus { children: PrefixMap::from(Vec::new()) };
        assert(r@ =~= Seq::<(Prefix, HandlerView)>::empty());
        r
    }

    /// Registers `handler` for `prefix`, after every earlier window.
    pub fn add_prefix(&mut self, prefix: Prefix, handler: MemHandler)
        requires
            old(self).wf(),
            handler.wf(),
        ensures
            final(self)@ == old(self)@.push((prefix, handler.view())),
            final(self).wf(),
    {
        self.children.add_prefix(prefix, handler);
        assert(self@ =~= old(self)@.push((prefix, handler.view())));
    }

    /// Reads `size` bytes at `address` from the first window holding them.
    pub fn read(&self, address: u32, size: u32) -> (r: u32)
        requires
            self.wf(),
            valid_size(size),
        ensures
            r == read_view(self@, address, size),
    {
        proof {
            lemma_first_holding_windows(self.children@, self@, address, size as int);
            lemma_first_holding(self.children@, address, size as int);
        }
        match self.children.locate_span(address, size) {
            Some((off, i)) => {
                let h = self.children.value(i);
                assert(self.children@[i as int].1.wf());
                assert(self@[i as int] == (self.children@[i as int].0, h.view()));
                h.read(off, size)
            },
            None => {
                if size == 1 {
                    0xff
                } else if size == 2 {
                    0xffff
                } else {
                    0xffff_ffff
                }
            },
        }
    }

    /// Writes `size` bytes at `address` to the first window holding them.
    pub fn write(&mut self, address: u32, size: u32, value: u32)
        requires
            old(self).wf(),
            valid_size(size),
        ensures
            final(self)@ == write_view(old(self)@, address, size, value),
            final(self).wf(),
    {
        proof {
            lemma_first_holding_windows(self.children@, self@, address, size as int);
            lemma_first_holding(self.children@, address, size as int);
        }
        match self.children.locate_span(address, size) {
            Some((off, i)) => {
                let ghost before = self.children@;
                assert(old(self)@[i as int] == (before[i as int].0, before[i as int].1.view()));
                let h = self.children.value_mut(i);
                h.write(off, size, value);
                assert(self.children@ == before.update(i as int, (before[i as int].0, self.children@[i as int].1)));
                assert(self@ =~= write_view(old(self)@, address, size, value));
                assert forall|j: int| 0 <= j < self.children@.len() implies (#[trigger] self.children@[j]).1.wf() by {
                    if j != i {
                        assert(self.children@[j] == before[j]);
                    }
                }
            },
            None => {},
        }
    }
}

/// `new` is `old` after segment `id` was loaded, with result `r`, by the
/// loader of window `k`.
pub open spec fn loaded_at(old: Seq<(Prefix, HandlerView)>, new: Seq<(Prefix, HandlerView)>, k: int, id: i16, r: Option<u32>) -> bool {
    &&& new.len() == old.len()
    &&& forall|j: int| 0 <= j < old.len() && j != k ==> #[trigger] new[j] == old[j]
    &&& new[k].0 == old[k].0
    &&& match (old[k].1, new[k].1) {
        (HandlerView::Loader(l0), HandlerView::Loader(l1)) => SegmentLoader::load_post(&l0, id, &l1, r),
        _ => false,
    }
}

/// Whether the handler of window `k` is the first segment loader of `mem`.
pub open spec fn first_loader(mem: Seq<(Prefix, HandlerView)>, k: int) -> bool {
    &&& 0 <= k < mem.len()
    &&& mem[k].1 is Loader
    &&& forall|j: int| 0 <= j < k ==> !(#[trigger] mem[j].1 is Loader)
}

impl MuxAddressBus {
    /// Loads segment `id` through the first segment loader in the table.
    pub fn load_segment(&mut self, id: i16) -> (r: Option<u32>)
        requires
            old(self).wf(),
        ensures
            final(self).wf(),
            (forall|j: int| 0 <= j < old(self)@.len() ==> !(#[trigger] old(self)@[j].1 is Loader))
                ==> r is None && final(self)@ == old(self)@,
            forall|k: int| first_loader(old(self)@, k) ==> loaded_at(old(self)@, final(self)@, k, id, r),
    {
        let mut k: usize = 0;
        while k < self.children.len()
            invariant
                0 <= k <= self@.len(),
                self.wf(),
                self@ == old(self)@,
                forall|j: int| 0 <= j < k ==> !(#[trigger] self@[j].1 is Loader),
            decreases self@.len() - k,
        {
            let ghost before = self.children@;
            assert(self@[k as int] == (before[k as int].0, before[k as int].1.view()));
            assert(before[k as int].1.wf());
            let h = self.children.value_mut(k);
            let found = match h {
                MemHandler::Loader(l) => Some(l.load(id)),
                _ => None,
            };
            match found {
                Some(r) => {
                    assert(self.children@ == before.update(k as int, (before[k as int].0, self.children@[k as int].1)));
                    assert forall|j: int| 0 <= j < self.children@.len() implies (#[trigger] self.children@[j]).1.wf() by {
                        if j != k {
                            assert(self.children@[j] == before[j]);
                        }
                    }
                    assert(loaded_at(old(self)@, self@, k as int, id, r));
                    return r;
                },
                None => {
                    assert(self.children@ =~= before);
                    assert(self@ =~= old(self)@);
                },
            }
            k += 1;
        }
        None
    }
}

/// A read right after a write of the same width at the same address gives
/// back the written value cut to that width, when the access goes to RAM.
pub proof fn lemma_read_after_write(mem: Seq<(Prefix, HandlerView)>, address: u32, size: u32, v: u32)
    requires
        valid_size(size),
        ram_backed(mem, address, size),
    ensures
        read_view(write_view(mem, address, size, v), address, size) == v & ones(size),
        ram_backed(write_view(mem, address, size, v), address, size),
{
    let i = first_holding(mem, address, size as int).unwrap();
    lemma_first_holding(mem, address, size as int);
    let m2 = write_view(mem, address, size, v);
    assert forall|j: int| 0 <= j < mem.len() implies (#[trigger] mem[j]).0 == m2[j].0 by {}
    lemma_first_holding_windows(mem, m2, address, size as int);
    if let HandlerView::Ram(b) = mem[i].1 {
        lemma_load_store(b, offset_in(mem[i].0, address) as int, size, v);
    }
}

/// Of two windows that both hold an access, the one registered first
/// serves it, when no window before it holds the access.
pub proof fn lemma_router_precedence(mem: Seq<(Prefix, HandlerView)>, address: u32, size: u32, i: int, j: int)
    requires
        0 <= i < j < mem.len(),
        mem[i].0.holds(address, size as int),
        mem[j].0.holds(address, size as int),
        forall|k: int| 0 <= k < i ==> !(#[trigger] mem[k]).0.holds(address, size as int),
    ensures
        read_view(mem, address, size) == handler_load(mem[i].1, offset_in(mem[i].0, address) as int, size),
{
    crate::prefix::lemma_first_holding_at(mem, address, size as int, i);
}

} // verus!
