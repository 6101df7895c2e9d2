//! The register file and memory of the emulated CPU as the trap layer sees
//! them, and the calling-convention adapter that moves typed values on and
//! off its stack. A7 is the stack pointer; the stack grows downwards, and a
//! value narrower than 16 bits still takes a 16-bit slot.

use vstd::prelude::*;
use crate::bus::{MuxAddressBus, HandlerView, read_view, write_view, ram_backed, lemma_read_after_write};
use crate::mem::ones;
use crate::prefix::Prefix;
use crate::types::{OSType, bytes_u32};

verus! {

/// Whether the core executes instructions.
#[derive(PartialEq, Eq, Structural, Debug, Clone, Copy)]
pub enum ProcessingState {
    Normal,
    Stopped,
    Halted,
}

/// Registers D0-D7 then A0-A7 (A7 is the stack pointer), the program
/// counter, the processing state, and the memory behind the router.
pub struct CpuCore {
    pub dar: Vec<u32>,
    pub pc: u32,
    pub processing_state: ProcessingState,
    pub mem: MuxAddressBus,
}

/// The state of a core as plain values.
pub struct CoreView {
    pub dar: Seq<u32>,
    pub pc: u32,
    pub state: ProcessingState,
    pub mem: Seq<(Prefix, HandlerView)>,
}

/// Index of A7, the stack pointer, in the register file.
pub const SP: usize = 15;

/// The stack pointer.
pub open spec fn sp(c: CoreView) -> u32 {
    c.dar[SP as int]
}

/// `c` after pushing the low `width` bytes of `raw`.
pub open spec fn push_view(c: CoreView, width: u32, raw: u32) -> CoreView {
    if width == 0 {
        c
    } else {
        let sp2 = ((sp(c) + 0x1_0000_0000 - width) % 0x1_0000_0000) as u32;
        CoreView { dar: c.dar.update(SP as int, sp2), mem: write_view(c.mem, sp2, width, raw), ..c }
    }
}

/// `c` after dropping `width` bytes off the stack.
pub open spec fn pop_view(c: CoreView, width: u32) -> CoreView {
    if width == 0 {
        c
    } else {
        CoreView { dar: c.dar.update(SP as int, ((sp(c) + width) % 0x1_0000_0000) as u32), ..c }
    }
}

/// The `width` bytes on top of the stack.
pub open spec fn top_view(c: CoreView, width: u32) -> u32 {
    if width == 0 {
        0
    } else {
        read_view(c.mem, sp(c), width)
    }
}

impl View for CpuCore {
    type V = CoreView;

    open spec fn view(&self) -> CoreView {
        CoreView { dar: self.dar@, pc: self.pc, state: self.processing_state, mem: self.mem@ }
    }
}

impl CpuCore {
    pub open spec fn wf(&self) -> bool {
        self.dar@.len() == 16 && self.mem.wf()
    }

    /// A core with all registers zero, running, over `mem`.
    pub fn new(mem: MuxAddressBus) -> (r: CpuCore)
        requires
            mem.wf(),
        ensures
            r.wf(),
            r@.dar == Seq::new(16, |i: int| 0u32),
            r@.pc == 0,
            r@.state == ProcessingState::Normal,
            r@.mem == mem@,
    {
        let dar = vec![0u32; 16];
        assert(dar@ =~= Seq::new(16, |i: int| 0u32));
        CpuCore { dar, pc: 0, processing_state: ProcessingState::Normal, mem }
    }

    /// Continues execution at `address`.
    pub fn jump(&mut self, address: u32)
        ensures
            final(self).wf() == old(self).wf(),
            final(self)@ == (CoreView { pc: address, ..old(self)@ }),
    {
        self.pc = address;
    }

    /// Ends instruction processing.
    pub fn stop_instruction_processing(&mut self)
        ensures
            final(self).wf() == old(self).wf(),
            final(self)@ == (CoreView { state: ProcessingState::Stopped, ..old(self)@ }),
    {
        self.processing_state = ProcessingState::Stopped;
    }

    pub fn set_register(&mut self, i: usize, v: u32)
        requires
            old(self).wf(),
            i < 16,
        ensures
            final(self).wf(),
            final(self)@ == (CoreView { dar: old(self)@.dar.update(i as int, v), ..old(self)@ }),
    {
        self.dar.set(i, v);
    }

    fn push(&mut self, width: u32, raw: u32)
        requires
            old(self).wf(),
            width == 2 || width == 4,
        ensures
            final(self).wf(),
            final(self)@ == push_view(old(self)@, width, raw),
    {
        let sp2 = ((self.dar[SP] as u64 + 0x1_0000_0000 - width as u64) % 0x1_0000_0000) as u32;
        self.mem.write(sp2, width, raw);
        self.dar.set(SP, sp2);
    }

    fn pop(&mut self, width: u32) -> (r: u32)
        requires
            old(self).wf(),
            width == 2 || width == 4,
        ensures
            final(self).wf(),
            final(self)@ == pop_view(old(self)@, width),
            r == top_view(old(self)@, width),
    {
        let sp = self.dar[SP];
        let v = self.mem.read(sp, width);
        self.dar.set(SP, ((sp as u64 + width as u64) % 0x1_0000_0000) as u32);
        v
    }

    pub fn push_16(&mut self, v: u16)
        requires
            old(self).wf(),
        ensures
            final(self).wf(),
            final(self)@ == push_view(old(self)@, 2, v as u32),
    {
        self.push(2, v as u32);
    }

    pub fn push_32(&mut self, v: u32)
        requires
            old(self).wf(),
        ensures
            final(self).wf(),
            final(self)@ == push_view(old(self)@, 4, v),
    {
        self.push(4, v);
    }

    pub fn pop_16(&mut self) -> (r: u16)
        requires
            old(self).wf(),
        ensures
            final(self).wf(),
            final(self)@ == pop_view(old(self)@, 2),
            r == top_view(old(self)@, 2) as u16,
    {
        self.pop(2) as u16
    }

    pub fn pop_32(&mut self) -> (r: u32)
        requires
            old(self).wf(),
        ensures
            final(self).wf(),
            final(self)@ == pop_view(old(self)@, 4),
            r == top_view(old(self)@, 4),
    {
        self.pop(4)
    }
}

/// A value passed on the stack: `width()` bytes, holding `encode()`.
pub trait Stackable: Sized {
    /// Bytes the value takes on the stack: 0, 2 or 4.
    spec fn width() -> u32;

    /// The stack slot's contents for the value.
    spec fn encode(&self) -> u32;

    /// The value a stack slot's contents stand for.
    spec fn decode(raw: u32) -> Self;

    fn stack_push(&self, core: &mut CpuCore)
        requires
            old(core).wf(),
        ensures
            final(core).wf(),
            final(core)@ == push_view(old(core)@, Self::width(), self.encode()),
    ;

    fn stack_pop(core: &mut CpuCore) -> (r: Self)
        requires
            old(core).wf(),
        ensures
            final(core).wf(),
            final(core)@ == pop_view(old(core)@, Self::width()),
            r == Self::decode(top_view(old(core)@, Self::width())),
    ;
}

/// Pops the value in a caller-reserved result slot and pushes `v` in its
/// place; answers with the value popped.
pub fn stack_replace<T: Stackable>(v: &T, core: &mut CpuCore) -> (r: T)
    requires
        old(core).wf(),
    ensures
        final(core).wf(),
        final(core)@ == push_view(pop_view(old(core)@, T::width()), T::width(), v.encode()),
        r == T::decode(top_view(old(core)@, T::width())),
{
    let r = T::stack_pop(core);
    v.stack_push(core);
    r
}

impl Stackable for u32 {
    open spec fn width() -> u32 {
        4
    }

    open spec fn encode(&self) -> u32 {
        *self
    }

    open spec fn decode(raw: u32) -> u32 {
        raw
    }

    fn stack_push(&self, core: &mut CpuCore) {
        core.push_32(*self);
    }

    fn stack_pop(core: &mut CpuCore) -> (r: u32) {
        core.pop_32()
    }
}

impl Stackable for u16 {
    open spec fn width() -> u32 {
        2
    }

    open spec fn encode(&self) -> u32 {
        *self as u32
    }

    open spec fn decode(raw: u32) -> u16 {
        raw as u16
    }

    fn stack_push(&self, core: &mut CpuCore) {
        core.push_16(*self);
    }

    fn stack_pop(core: &mut CpuCore) -> (r: u16) {
        core.pop_16()
    }
}

impl Stackable for u8 {
    open spec fn width() -> u32 {
        2
    }

    open spec fn encode(&self) -> u32 {
        *self as u32
    }

    open spec fn decode(raw: u32) -> u8 {
        raw as u16 as u8
    }

    fn stack_push(&self, core: &mut CpuCore) {
        core.push_16(*self as u16);
    }

    fn stack_pop(core: &mut CpuCore) -> (r: u8) {
        core.pop_16() as u8
    }
}

impl Stackable for i32 {
    open spec fn width() -> u32 {
        4
    }

    open spec fn encode(&self) -> u32 {
        *self as u32
    }

    open spec fn decode(raw: u32) -> i32 {
        raw as i32
    }

    fn stack_push(&self, core: &mut CpuCore) {
        core.push_32(*self as u32);
    }

    fn stack_pop(core: &mut CpuCore) -> (r: i32) {
        core.pop_32() as i32
    }
}

impl Stackable for i16 {
    open spec fn width() -> u32 {
        2
    }

    open spec fn encode(&self) -> u32 {
        *self as u16 as u32
    }

    open spec fn decode(raw: u32) -> i16 {
        raw as u16 as i16
    }

    fn stack_push(&self, core: &mut CpuCore) {
        core.push_16(*self as u16);
    }

    fn stack_pop(core: &mut CpuCore) -> (r: i16) {
        core.pop_16() as i16
    }
}

impl Stackable for i8 {
    open spec fn width() -> u32 {
        2
    }

    /// Widened to 16 bits with its sign, then taken as unsigned.
    open spec fn encode(&self) -> u32 {
        *self as i16 as u16 as u32
    }

    /// Narrowed by dropping the high byte.
    open spec fn decode(raw: u32) -> i8 {
        raw as u16 as i8
    }

    fn stack_push(&self, core: &mut CpuCore) {
        core.push_16((*self as i16) as u16);
    }

    fn stack_pop(core: &mut CpuCore) -> (r: i8) {
        core.pop_16() as i8
    }
}

impl Stackable for OSType {
    open spec fn width() -> u32 {
        4
    }

    open spec fn encode(&self) -> u32 {
        bytes_u32(self.0@)
    }

    open spec fn decode(raw: u32) -> OSType {
        OSType([(raw >> 24u32) as u8, (raw >> 16u32) as u8, (raw >> 8u32) as u8, raw as u8])
    }

    fn stack_push(&self, core: &mut CpuCore) {
        core.push_32(self.as_u32());
    }

    fn stack_pop(core: &mut CpuCore) -> (r: OSType) {
        let raw = core.pop_32();
        let r = OSType::from_u32(raw);
        assert(r.0 =~= OSType::decode(raw).0);
        r
    }
}

impl Stackable for () {
    open spec fn width() -> u32 {
        0
    }

    open spec fn encode(&self) -> u32 {
        0
    }

    open spec fn decode(raw: u32) -> () {
        ()
    }

    fn stack_push(&self, core: &mut CpuCore) {
    }

    fn stack_pop(core: &mut CpuCore) -> (r: ()) {
    }
}

/// Pushing a signed byte and popping it back gives the byte and restores the
/// stack pointer; the 16-bit stack word holds the byte sign-extended, so it is
/// the byte plus 0x10000 when negative and the byte itself otherwise. The
/// slot below the stack pointer must be RAM.
pub proof fn lemma_i8_round_trip(c: CoreView, v: i8)
    requires
        c.dar.len() == 16,
        ram_backed(c.mem, ((sp(c) + 0x1_0000_0000 - 2) % 0x1_0000_0000) as u32, 2),
    ensures
        ({
            let c1 = push_view(c, 2, v.encode());
            &&& <i8 as Stackable>::decode(top_view(c1, 2)) == v
            &&& pop_view(c1, 2).dar == c.dar
            &&& v < 0 ==> top_view(c1, 2) == v + 0x10000
            &&& v >= 0 ==> top_view(c1, 2) == v
        }),
{
    let sp2 = ((sp(c) + 0x1_0000_0000 - 2) % 0x1_0000_0000) as u32;
    let raw = v.encode();
    lemma_read_after_write(c.mem, sp2, 2, raw);
    let c1 = push_view(c, 2, raw);
    assert(raw & 0xffff == raw) by (bit_vector)
        requires
            raw == v as i16 as u16 as u32,
    ;
    assert((raw as u16 as i8) == v) by (bit_vector)
        requires
            raw == v as i16 as u16 as u32,
    ;
    let s = sp(c);
    assert(pop_view(c1, 2).dar =~= c.dar);
    assert(top_view(c1, 2) == raw);
    if v < 0 {
        assert(raw == (v as i32 + 0x10000i32) as u32) by (bit_vector)
            requires
                raw == v as i16 as u16 as u32,
                v < 0,
        ;
    } else {
        assert(raw == v);
    }
}

/// Replacing the value in a result slot answers with the value that was on
/// top and leaves the new value on top at the same depth, when the slot is
/// RAM.
pub proof fn lemma_replace<T: Stackable>(c: CoreView, x: T)
    requires
        c.dar.len() == 16,
        T::width() == 2 || T::width() == 4,
        ram_backed(c.mem, sp(c), T::width()),
    ensures
        ({
            let c1 = push_view(pop_view(c, T::width()), T::width(), x.encode());
            &&& c1.dar == c.dar
            &&& top_view(c1, T::width()) == x.encode() & ones(T::width())
        }),
{
    let w = T::width();
    let c0 = pop_view(c, w);
    let s = sp(c);
    lemma_read_after_write(c.mem, s, w, x.encode());
    assert(push_view(c0, w, x.encode()).dar =~= c.dar);
}

} // verus!
