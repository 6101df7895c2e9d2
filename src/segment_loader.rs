//! Lazy loading of code segments into a window of the address space, with
//! the jump table of segment 0 patched in place once a segment is resident.

use vstd::prelude::*;
use crate::mem::{byte_at, combine, valid_size};
use crate::range::AddressRange;
use crate::rsrc::Rsrc;
use crate::serialization::{SerialReadStorage, ReadError, be16};
use crate::types::OSType;

verus! {

/// Bytes of the address window given to each loaded segment.
pub const SEGMENT_MAX_SIZE: u32 = 0x8000;

/// The resource type of code segments, `CODE`.
pub open spec fn code_type_spec() -> OSType {
    OSType([0x43u8, 0x4fu8, 0x44u8, 0x45u8])
}

pub fn code_type() -> (r: OSType)
    ensures
        r == code_type_spec(),
{
    OSType([0x43u8, 0x4fu8, 0x44u8, 0x45u8])
}

/// Header of segment 0: the layout around the A5 anchor.
#[derive(Debug, Clone, Copy)]
pub struct JumpTableHeader {
    pub above_a5: u32,
    pub below_a5: u32,
    pub length: u32,
    pub offset_a5: u32,
}

/// Header of every other segment.
#[derive(Debug, Clone, Copy)]
pub struct SegmentHeader {
    pub offset: u16,
    pub count: u16,
}

#[derive(Debug, Clone, Copy)]
pub enum Header {
    JumpTable(JumpTableHeader),
    Segment(SegmentHeader),
}

/// Length of the header of segment `id`.
pub open spec fn header_len(id: i16) -> int {
    if id == 0 {
        16
    } else {
        4
    }
}

impl Header {
    /// Reads the header of segment `code_id`: a jump-table header for
    /// segment 0, a segment header otherwise.
    pub fn read(rdr: &mut SerialReadStorage, code_id: i16) -> (r: Result<Header, ReadError>)
        ensures
            final(rdr).bytes() == old(rdr).bytes(),
            old(rdr).has(header_len(code_id)) ==> (r is Ok && final(rdr).advanced(
                old(rdr),
                header_len(code_id),
            )),
            !old(rdr).has(header_len(code_id)) ==> r is Err,
            r matches Ok(h) ==> (code_id == 0 <==> h is JumpTable),
            r matches Ok(Header::JumpTable(j)) ==> j.offset_a5 == crate::rsrc::be32_at(
                old(rdr).bytes(),
                old(rdr).cursor() + 12,
            ),
    {
        if code_id == 0 {
            if !(rdr.pos() < rdr.size() && rdr.size() - rdr.pos() >= 16) {
                return Err(ReadError::UnexpectedEof);
            }
            let above_a5 = rdr.read_u32().unwrap();
            let below_a5 = rdr.read_u32().unwrap();
            let length = rdr.read_u32().unwrap();
            let offset_a5 = rdr.read_u32().unwrap();
            Ok(Header::JumpTable(JumpTableHeader { above_a5, below_a5, length, offset_a5 }))
        } else {
            if !(rdr.pos() < rdr.size() && rdr.size() - rdr.pos() >= 4) {
                return Err(ReadError::UnexpectedEof);
            }
            let offset = rdr.read_u16().unwrap();
            let count = rdr.read_u16().unwrap();
            Ok(Header::Segment(SegmentHeader { offset, count }))
        }
    }
}

/// A segment as loaded: its id, its header and the code after the header.
pub struct LoadedSegment {
    pub id: i16,
    pub header: Header,
    pub code: Vec<u8>,
}

// Jump-table slots. A slot is eight bytes at a multiple of eight. Before its
// segment is loaded it reads `[offset][0x3f3c][id][0xa9f0]`: push the id and
// call the load-segment trap. Afterwards it reads `[id][0x4ef9][target]`: an
// absolute jump to the routine.

/// Whether the slot at `s` holds the push-id, load-segment-trap pattern.
pub open spec fn is_load_trap(jt: Seq<u8>, s: int) -> bool {
    jt[s + 2] == 0x3f && jt[s + 3] == 0x3c && jt[s + 6] == 0xa9 && jt[s + 7] == 0xf0
}

/// The segment id embedded in a not yet patched slot.
pub open spec fn slot_id(jt: Seq<u8>, s: int) -> i16 {
    be16(jt[s + 4], jt[s + 5]) as i16
}

/// The routine's offset in its segment, embedded in a not yet patched slot.
pub open spec fn slot_offset(jt: Seq<u8>, s: int) -> u32 {
    be16(jt[s], jt[s + 1]) as u32
}

/// Whether `s` starts a whole slot of `jt`.
pub open spec fn is_slot(jt: Seq<u8>, s: int) -> bool {
    0 <= s && s % 8 == 0 && s + 8 <= jt.len()
}

/// Whether the slot at `s` is a not yet patched call into segment `id`.
pub open spec fn calls_segment(jt: Seq<u8>, s: int, id: i16) -> bool {
    is_slot(jt, s) && is_load_trap(jt, s) && slot_id(jt, s) == id
}

/// Byte `k` of the patched form of the slot at `s`, for a segment loaded at
/// `address`.
pub open spec fn patched_byte(jt: Seq<u8>, s: int, k: int, address: u32) -> u8 {
    let target = ((slot_offset(jt, s) + address) % 0x1_0000_0000) as u32;
    if k == 0 {
        jt[s + 4]
    } else if k == 1 {
        jt[s + 5]
    } else if k == 2 {
        0x4e
    } else if k == 3 {
        0xf9
    } else if k == 4 {
        (target >> 24u32) as u8
    } else if k == 5 {
        (target >> 16u32) as u8
    } else if k == 6 {
        (target >> 8u32) as u8
    } else {
        target as u8
    }
}

/// The jump table after every call into segment `id` became a jump into the
/// segment loaded at `address`.
pub open spec fn patch_table(jt: Seq<u8>, id: i16, address: u32) -> Seq<u8> {
    Seq::new(
        jt.len(),
        |i: int|
            if calls_segment(jt, i - i % 8, id) {
                patched_byte(jt, i - i % 8, i % 8, address)
            } else {
                jt[i]
            },
    )
}

/// Decodes the slot at `s` as an absolute jump: the id it keeps and the
/// jump target.
pub open spec fn decode_jump(jt: Seq<u8>, s: int) -> Option<(i16, u32)> {
    if jt[s + 2] == 0x4e && jt[s + 3] == 0xf9 {
        Some(
            (
                be16(jt[s], jt[s + 1]) as i16,
                ((jt[s + 4] as u32) << 24u32) | ((jt[s + 5] as u32) << 16u32) | ((jt[s + 6] as u32)
                    << 8u32) | (jt[s + 7] as u32),
            ),
        )
    } else {
        None
    }
}

/// After patching for segment `id` at `address`, each slot that called
/// into `id` decodes as a jump to its embedded offset plus `address`,
/// keeping the id; every other slot is unchanged.
pub proof fn lemma_patch_table(jt: Seq<u8>, id: i16, address: u32, s: int)
    requires
        is_slot(jt, s),
    ensures
        calls_segment(jt, s, id) ==> decode_jump(patch_table(jt, id, address), s) == Some(
            (id, ((slot_offset(jt, s) + address) % 0x1_0000_0000) as u32),
        ),
        !calls_segment(jt, s, id) ==> patch_table(jt, id, address).subrange(s, s + 8)
            == jt.subrange(s, s + 8),
        patch_table(jt, id, address).len() == jt.len(),
{
    let p = patch_table(jt, id, address);
    assert forall|k: int| 0 <= k < 8 implies (s + k) - #[trigger] ((s + k) % 8) == s && (s + k) % 8 == k by {}
    if calls_segment(jt, s, id) {
        assert(p[s] == jt[s + 4]);
        assert(p[s + 1] == jt[s + 5]);
        assert(p[s + 2] == 0x4e);
        assert(p[s + 3] == 0xf9);
        let target = ((slot_offset(jt, s) + address) % 0x1_0000_0000) as u32;
        assert(p[s + 4] == (target >> 24u32) as u8);
        assert(p[s + 5] == (target >> 16u32) as u8);
        assert(p[s + 6] == (target >> 8u32) as u8);
        assert(p[s + 7] == target as u8);
        assert(((((target >> 24u32) as u8) as u32) << 24u32) | ((((target >> 16u32) as u8) as u32)
            << 16u32) | ((((target >> 8u32) as u8) as u32) << 8u32) | ((target as u8) as u32)
            == target) by (bit_vector);
    } else {
        assert(p.subrange(s, s + 8) =~= jt.subrange(s, s + 8));
    }
}

/// Rewrites in place each slot of `jt` that calls into segment `id` into an
/// absolute jump into that segment at `address`.
fn patch_jump_table(jt: &mut Vec<u8>, id: i16, address: u32)
    ensures
        final(jt)@ == patch_table(old(jt)@, id, address),
{
    let ghost orig = jt@;
    let len = jt.len();
    let mut i: usize = 0;
    while i < len && len - i >= 8
        invariant
            len == orig.len(),
            jt@.len() == len,
            i % 8 == 0,
            i <= len,
            forall|k: int|
                0 <= k < i ==> #[trigger] jt@[k] == patch_table(orig, id, address)[k],
            forall|k: int| i <= k < len ==> #[trigger] jt@[k] == orig[k],
        decreases len - i,
    {
        assert forall|k: int| i <= k < i + 8 implies k - #[trigger] (k % 8) == i && k % 8 == k - i by {}
        if jt[i + 2] == 0x3f && jt[i + 3] == 0x3c && jt[i + 6] == 0xa9 && jt[i + 7] == 0xf0 {
            let offset = (jt[i] as u32) * 0x100 + (jt[i + 1] as u32);
            let cur_id = ((jt[i + 4] as u32) * 0x100 + (jt[i + 5] as u32)) as u16 as i16;
            if cur_id == id {
                let target = ((offset as u64 + address as u64) % 0x1_0000_0000) as u32;
                let hi = jt[i + 4];
                let lo = jt[i + 5];
                jt.set(i, hi);
                jt.set(i + 1, lo);
                jt.set(i + 2, 0x4e);
                jt.set(i + 3, 0xf9);
                jt.set(i + 4, (target >> 24u32) as u8);
                jt.set(i + 5, (target >> 16u32) as u8);
                jt.set(i + 6, (target >> 8u32) as u8);
                jt.set(i + 7, target as u8);
            }
        }
        i += 8;
    }
    assert forall|k: int| i <= k < len implies !is_slot(orig, k - #[trigger] (k % 8)) by {}
    assert(jt@ =~= patch_table(orig, id, address));
}

/// The address of slot `idx` of a window based at `base`.
pub open spec fn slot_address(base: u32, idx: int) -> int {
    idx * SEGMENT_MAX_SIZE + base
}

/// The position of `id` in `ids`, if it occurs.
pub open spec fn index_of(ids: Seq<i16>, id: i16) -> Option<int> {
    if exists|i: int| 0 <= i < ids.len() && ids[i] == id {
        Some(choose|i: int| 0 <= i < ids.len() && ids[i] == id)
    } else {
        None
    }
}

/// Whether no id occurs twice.
pub open spec fn distinct(ids: Seq<i16>) -> bool {
    forall|i: int, j: int| 0 <= i < j < ids.len() ==> ids[i] != ids[j]
}

/// The codes after loading segment `id` at `address`: segment 0's bytes,
/// when segment 0 is the jump table, patched for `id`.
pub open spec fn patch_first(ids: Seq<i16>, codes: Seq<Seq<u8>>, id: i16, address: u32) -> Seq<Seq<u8>> {
    if ids.len() > 0 && ids[0] == 0 {
        codes.update(0, patch_table(codes[0], id, address))
    } else {
        codes
    }
}

/// A handler for the code window: segments are loaded on demand from the
/// `CODE` resources of a resource fork, one per fixed-size slot.
pub struct SegmentLoader {
    address_range: AddressRange,
    rsrc: Rsrc,
    jump_table_header: JumpTableHeader,
    data: Vec<LoadedSegment>,
}

impl SegmentLoader {
    /// Ids of the loaded segments, in load order.
    pub closed spec fn ids(&self) -> Seq<i16> {
        self.data@.map_values(|s: LoadedSegment| s.id)
    }

    /// Code of the loaded segments, in load order.
    pub closed spec fn codes(&self) -> Seq<Seq<u8>> {
        self.data@.map_values(|s: LoadedSegment| s.code@)
    }

    /// Base address of the window.
    pub closed spec fn base(&self) -> u32 {
        self.address_range.address_start
    }

    /// Offset of the A5 anchor below the window, from segment 0's header.
    pub closed spec fn offset_a5(&self) -> u32 {
        self.jump_table_header.offset_a5
    }

    /// The resource fork segments come from.
    pub closed spec fn resources(&self) -> Rsrc {
        self.rsrc
    }

    /// Ids are distinct and every loaded segment's slot address fits.
    pub open spec fn wf(&self) -> bool {
        &&& distinct(self.ids())
        &&& self.ids().len() == self.codes().len()
        &&& self.ids().len() == 0 || slot_address(self.base(), self.ids().len() - 1) <= u32::MAX
    }

    /// The code of segment `id` as fetched: its resource without the header.
    pub open spec fn fetched(&self, id: i16) -> Option<Seq<u8>> {
        match self.resources().resource(code_type_spec(), id) {
            Some(b) => if b.len() >= header_len(id) {
                Some(b.subrange(header_len(id), b.len() as int))
            } else {
                None
            },
            None => None,
        }
    }

    /// Whether `other` holds the same segments, window and anchor.
    pub open spec fn same(&self, other: &SegmentLoader) -> bool {
        &&& self.ids() == other.ids()
        &&& self.codes() == other.codes()
        &&& self.base() == other.base()
        &&& self.offset_a5() == other.offset_a5()
        &&& self.resources() == other.resources()
    }

    /// What `load(id)` does, from `old` to `new` with result `r`.
    pub open spec fn load_post(old: &SegmentLoader, id: i16, new: &SegmentLoader, r: Option<u32>) -> bool {
        match index_of(old.ids(), id) {
            Some(i) => r == Some(slot_address(old.base(), i) as u32) && new.same(old),
            None => {
                let n = old.ids().len() as int;
                match old.fetched(id) {
                    Some(code) => if slot_address(old.base(), n) <= u32::MAX {
                        let address = slot_address(old.base(), n) as u32;
                        &&& r == Some(address)
                        &&& new.ids() == old.ids().push(id)
                        &&& new.codes() == patch_first(
                            new.ids(),
                            old.codes().push(code),
                            id,
                            address,
                        )
                        &&& new.base() == old.base()
                        &&& new.resources() == old.resources()
                        &&& new.offset_a5() == (if id == 0 {
                            crate::rsrc::be32_at(old.resources().resource(code_type_spec(), id).unwrap(), 12)
                        } else {
                            old.offset_a5()
                        })
                    } else {
                        r is None && new.same(old)
                    },
                    None => r is None && new.same(old),
                }
            },
        }
    }

    /// A loader for the window `address_range` over the `CODE` resources of
    /// `rsrc`, with segment 0, the jump table, loaded first.
    pub fn new(address_range: AddressRange, rsrc: Rsrc) -> (r: SegmentLoader)
        ensures
            r.wf(),
            r.base() == address_range.address_start,
            r.resources() == rsrc,
            match rsrc.resource(code_type_spec(), 0) {
                Some(b) => if b.len() >= 16 {
                    &&& r.ids() == seq![0i16]
                    &&& r.codes() == seq![
                        patch_table(b.subrange(16, b.len() as int), 0, address_range.address_start),
                    ]
                    &&& r.offset_a5() == crate::rsrc::be32_at(b, 12)
                } else {
                    r.ids().len() == 0 && r.offset_a5() == 0
                },
                None => r.ids().len() == 0 && r.offset_a5() == 0,
            },
    {
        let mut sl = SegmentLoader {
            address_range,
            rsrc,
            jump_table_header: JumpTableHeader { above_a5: 0, below_a5: 0, length: 0, offset_a5: 0 },
            data: Vec::new(),
        };
        assert(sl.ids() =~= Seq::<i16>::empty());
        assert(sl.codes() =~= Seq::<Seq<u8>>::empty());
        let ghost empty = sl;
        let _ = sl.load(0);
        proof {
            assert(index_of(empty.ids(), 0) is None);
            if let Some(code) = empty.fetched(0) {
                assert(seq![0i16] =~= Seq::<i16>::empty().push(0));
                assert(Seq::<Seq<u8>>::empty().push(code).update(0, patch_table(code, 0, address_range.address_start))
                    =~= seq![patch_table(code, 0, address_range.address_start)]);
            }
        }
        sl
    }

    /// Address of the A5 anchor: the window base less the jump table's
    /// A5 offset, modulo 2^32.
    pub fn get_a5(&self) -> (r: u32)
        ensures
            r == ((self.base() + 0x1_0000_0000 - self.offset_a5()) % 0x1_0000_0000) as u32,
    {
        ((self.address_range.start() as u64 + 0x1_0000_0000 - self.jump_table_header.offset_a5 as u64)
            % 0x1_0000_0000) as u32
    }

    /// Entry point: the first jump-table entry, two bytes into the window.
    pub fn get_start(&self) -> (r: u32)
        ensures
            r == ((self.base() + 2) % 0x1_0000_0000) as u32,
    {
        ((self.address_range.start() as u64 + 2) % 0x1_0000_0000) as u32
    }

    /// The byte at `off` of the window: a byte of the segment in that slot,
    /// or all-ones where nothing is loaded.
    pub open spec fn byte_spec(&self, off: int) -> u8 {
        if 0 <= off && off / (SEGMENT_MAX_SIZE as int) < self.codes().len() {
            byte_at(self.codes()[off / (SEGMENT_MAX_SIZE as int)], off % (SEGMENT_MAX_SIZE as int))
        } else {
            0xff
        }
    }

    fn byte(&self, off: u64) -> (r: u8)
        requires
            self.wf(),
        ensures
            r == self.byte_spec(off as int),
    {
        let idx = off / (SEGMENT_MAX_SIZE as u64);
        let so = off % (SEGMENT_MAX_SIZE as u64);
        if idx < self.data.len() as u64 {
            let code = &self.data[idx as usize].code;
            if so < code.len() as u64 {
                code[so as usize]
            } else {
                0xff
            }
        } else {
            0xff
        }
    }

    /// Reads `size` bytes at `offset` of the window, big-endian.
    pub fn read(&self, offset: u32, size: u32) -> (r: u32)
        requires
            self.wf(),
            valid_size(size),
        ensures
            r == combine(|i: int| self.byte_spec(i), offset as int, size),
    {
        let b0 = self.byte(offset as u64);
        if size == 1 {
            return b0 as u32;
        }
        let b1 = self.byte(offset as u64 + 1);
        if size == 2 {
            return ((b0 as u32) << 8u32) | (b1 as u32);
        }
        let b2 = self.byte(offset as u64 + 2);
        let b3 = self.byte(offset as u64 + 3);
        ((b0 as u32) << 24u32) | ((b1 as u32) << 16u32) | ((b2 as u32) << 8u32) | (b3 as u32)
    }

    /// Loads segment `id` unless it is resident, and answers with its
    /// address; `None` when its resource is missing or too short for its
    /// header, or no slot address is left.
    pub fn load(&mut self, id: i16) -> (r: Option<u32>)
        requires
            old(self).wf(),
        ensures
            final(self).wf(),
            SegmentLoader::load_post(old(self), id, final(self), r),
    {
        let start = self.address_range.start();
        let mut idx: usize = 0;
        while idx < self.data.len()
            invariant
                0 <= idx <= self.data@.len(),
                self.wf(),
                *self == *old(self),
                start == self.base(),
                forall|j: int| 0 <= j < idx ==> self.ids()[j] != id,
            decreases self.data@.len() - idx,
        {
            if self.data[idx].id == id {
                let ghost ids = self.ids();
                assert(ids[idx as int] == id);
                let ghost ch = choose|i: int| 0 <= i < ids.len() && ids[i] == id;
                assert(ch == idx) by {
                    if ch < idx {
                        assert(ids[ch] != ids[idx as int]);
                    } else if ch > idx {
                        assert(ids[idx as int] != ids[ch]);
                    }
                }
                assert(ids.len() == self.data@.len());
                assert(slot_address(start, idx as int) <= slot_address(start, ids.len() - 1));
                return Some((idx as u64 * SEGMENT_MAX_SIZE as u64 + start as u64) as u32);
            }
            idx += 1;
        }
        assert(index_of(self.ids(), id) is None);
        let n = self.data.len();
        if n as u64 > 0x2_0000 || n as u64 * SEGMENT_MAX_SIZE as u64 + start as u64 > 0xffff_ffff {
            return None;
        }
        let address = (n as u64 * SEGMENT_MAX_SIZE as u64 + start as u64) as u32;
        let mut rdr = match self.rsrc.open(code_type(), id) {
            Ok(d) => d,
            Err(_) => return None,
        };
        let header = match Header::read(&mut rdr, id) {
            Ok(h) => h,
            Err(_) => return None,
        };
        let code = rdr.remaining();
        let ghost fetched = code@;
        assert(self.fetched(id) == Some(fetched));
        if let Header::JumpTable(h) = header {
            self.jump_table_header = h;
        }
        self.data.push(LoadedSegment { id, header, code });
        assert(self.ids() =~= old(self).ids().push(id));
        assert(self.codes() =~= old(self).codes().push(fetched));
        self.update_jump_table(id, address);
        assert(self.ids() =~= old(self).ids().push(id));
        Some(address)
    }

    /// Patches segment 0, when it is the jump table, for segment `id`
    /// loaded at `address`.
    fn update_jump_table(&mut self, id: i16, address: u32)
        ensures
            final(self).ids() == old(self).ids(),
            final(self).codes() == patch_first(old(self).ids(), old(self).codes(), id, address),
            final(self).base() == old(self).base(),
            final(self).offset_a5() == old(self).offset_a5(),
            final(self).resources() == old(self).resources(),
    {
        if self.data.len() > 0 && self.data[0].id == 0 {
            patch_jump_table(&mut self.data[0].code, id, address);
        }
    }
}

/// Loading the same segment twice answers with the same address both times;
/// the second load changes nothing, and the first adds at most one segment.
pub proof fn lemma_load_idempotent(
    l0: SegmentLoader,
    id: i16,
    l1: SegmentLoader,
    r1: Option<u32>,
    l2: SegmentLoader,
    r2: Option<u32>,
)
    requires
        l0.wf(),
        l1.wf(),
        SegmentLoader::load_post(&l0, id, &l1, r1),
        SegmentLoader::load_post(&l1, id, &l2, r2),
    ensures
        r2 == r1,
        l2.same(&l1),
        l1.ids().len() <= l0.ids().len() + 1,
{
    let ids1 = l1.ids();
    match index_of(l0.ids(), id) {
        Some(i) => {},
        None => {
            if r1 is Some {
                let n = l0.ids().len() as int;
                assert(ids1[n] == id);
                let ch = choose|i: int| 0 <= i < ids1.len() && ids1[i] == id;
                assert(ch == n) by {
                    if ch < n {
                        assert(ids1[ch] == l0.ids()[ch]);
                    }
                }
            }
        },
    }
}

/// The first successful load of segment `id` turns every jump-table slot
/// that called into `id` into an absolute jump to the slot's embedded offset
/// plus the segment's address, and leaves every other slot as it was. The
/// table before the load is segment 0's code, or the fetched code itself
/// when `id` is 0 and nothing was loaded yet.
pub proof fn lemma_load_patches_jump_table(
    l0: SegmentLoader,
    id: i16,
    l1: SegmentLoader,
    r: Option<u32>,
    s: int,
)
    requires
        l0.wf(),
        SegmentLoader::load_post(&l0, id, &l1, r),
        index_of(l0.ids(), id) is None,
        r is Some,
        l1.ids()[0] == 0,
        is_slot(l0.codes().push(l0.fetched(id).unwrap())[0], s),
    ensures
        ({
            let jt = l0.codes().push(l0.fetched(id).unwrap())[0];
            &&& calls_segment(jt, s, id) ==> decode_jump(l1.codes()[0], s) == Some(
                (id, ((slot_offset(jt, s) + r.unwrap()) % 0x1_0000_0000) as u32),
            )
            &&& !calls_segment(jt, s, id) ==> l1.codes()[0].subrange(s, s + 8) == jt.subrange(
                s,
                s + 8,
            )
        }),
{
    let jt = l0.codes().push(l0.fetched(id).unwrap())[0];
    lemma_patch_table(jt, id, r.unwrap(), s);
}

} // verus!
