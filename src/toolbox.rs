//! The memory map and initial register state that an application starts
//! with: the code window, a page of globals, the stack, and the application
//! RAM below the A5 anchor.

use vstd::prelude::*;
use crate::bus::{MemHandler, MuxAddressBus, ram_backed, lemma_read_after_write};
use crate::cpu::{CpuCore, ProcessingState, top_view};
use crate::mem::RAM;
use crate::prefix::{Prefix, prefix_mask_spec, lemma_first_holding_at};
use crate::range::AddressRange;
use crate::rsrc::{Rsrc, be32_at};
use crate::segment_loader::{SegmentLoader, code_type_spec};

verus! {

/// Base of the code window.
pub const CODE_BASE: u32 = 0x2000_0000;

/// Initial stack pointer; the stack RAM lies just below it.
pub const STACK_TOP: u32 = 0x1100_0000;

/// Base of the stack RAM.
pub const STACK_BASE: u32 = 0x10f0_0000;

/// Base of the application RAM.
pub const APP_RAM_BASE: u32 = 0x1ff0_0000;

/// Value pushed as the return slot the entry code expects.
pub const ENTRY_RETURN: u32 = 0xcafe_babe;

/// The A5 offset that segment 0's header of `rsrc` gives, or 0 without one.
pub open spec fn a5_offset(rsrc: Rsrc) -> u32 {
    match rsrc.resource(code_type_spec(), 0) {
        Some(b) => if b.len() >= 16 {
            be32_at(b, 12)
        } else {
            0
        },
        None => 0,
    }
}

/// The core an application starts on: segment 0 of `rsrc` loaded, A5 at
/// the code window less the jump table's A5 offset, the program counter on
/// the first jump-table entry, and a return slot pushed onto the stack.
pub fn boot(rsrc: Rsrc) -> (r: CpuCore)
    ensures
        r.wf(),
        r@.state == ProcessingState::Normal,
        r@.pc == CODE_BASE + 2,
        r@.dar[13] == ((CODE_BASE + 0x1_0000_0000 - a5_offset(rsrc)) % 0x1_0000_0000) as u32,
        r@.dar[15] == STACK_TOP - 4,
        r@.dar[3] == APP_RAM_BASE,
        top_view(r@, 4) == ENTRY_RETURN,
        r@.mem.len() == 4,
        r@.mem[0].0 == Prefix::new_spec(CODE_BASE, 8),
        r@.mem[1].0 == Prefix::new_spec(0, 20),
        r@.mem[2].0 == Prefix::new_spec(STACK_BASE, 12),
        r@.mem[3].0 == Prefix::new_spec(APP_RAM_BASE, 12),
{
    assert(CODE_BASE & !prefix_mask_spec(8) == 0) by (bit_vector);
    assert(0u32 & !prefix_mask_spec(20) == 0) by (bit_vector);
    assert(STACK_BASE & !prefix_mask_spec(12) == 0) by (bit_vector);
    assert(APP_RAM_BASE & !prefix_mask_spec(12) == 0) by (bit_vector);
    let loader = SegmentLoader::new(AddressRange::new_prefix(CODE_BASE, 8), rsrc);
    let a5 = loader.get_a5();
    let start = loader.get_start();
    let mut mem = MuxAddressBus::new();
    mem.add_prefix(Prefix::new(CODE_BASE, 8), MemHandler::Loader(loader));
    mem.add_prefix(Prefix::new(0, 20), MemHandler::Ram(RAM::new(0x1000)));
    mem.add_prefix(Prefix::new(STACK_BASE, 12), MemHandler::Ram(RAM::new(0x10_0000)));
    mem.add_prefix(Prefix::new(APP_RAM_BASE, 12), MemHandler::Ram(RAM::new(0x10_0000)));
    let mut core = CpuCore::new(mem);
    let regs: [u32; 16] = [
        0xd0d0_d0d0,
        0xd1d1_d1d1,
        0xd2d2_d2d2,
        APP_RAM_BASE,
        0xd4d4_d4d4,
        0xd5d5_d5d5,
        0xd6d6_d6d6,
        0xd7d7_d7d7,
        0x0000_0f00,
        0xa1a1_a1a1,
        0xa2a2_a2a2,
        0xa3a3_a3a3,
        0xa4a4_a4a4,
        a5,
        0xa6a6_a6a6,
        STACK_TOP,
    ];
    let mut i: usize = 0;
    while i < 16
        invariant
            core.wf(),
            core@.mem == mem@,
            core@.pc == 0,
            core@.state == ProcessingState::Normal,
            i <= 16,
            forall|j: int| 0 <= j < i ==> core@.dar[j] == regs[j],
        decreases 16 - i,
    {
        core.set_register(i, regs[i]);
        i += 1;
    }
    core.jump(start);
    proof {
        let m = core@.mem;
        let sp2 = ((STACK_TOP + 0x1_0000_0000 - 4) % 0x1_0000_0000) as u32;
        assert(sp2 == 0x10ff_fffc);
        assert(!(0x10ff_fffcu32 & prefix_mask_spec(8) == CODE_BASE)) by (bit_vector);
        assert(!(0x10ff_fffcu32 & prefix_mask_spec(20) == 0)) by (bit_vector);
        assert(0x10ff_fffcu32 & prefix_mask_spec(12) == STACK_BASE && 0x10ff_ffffu32
            & prefix_mask_spec(12) == STACK_BASE) by (bit_vector);
        assert(!m[0].0.holds(sp2, 4));
        assert(!m[1].0.holds(sp2, 4));
        assert(m[2].0.holds(sp2, 4));
        lemma_first_holding_at(m, sp2, 4, 2);
        assert(0x10ff_fffcu32 & !prefix_mask_spec(12) == 0xf_fffc) by (bit_vector);
        assert(ram_backed(m, sp2, 4));
        lemma_read_after_write(m, sp2, 4, ENTRY_RETURN);
        assert(ENTRY_RETURN & 0xffff_ffff == ENTRY_RETURN) by (bit_vector);
    }
    core.push_32(ENTRY_RETURN);
    core
}

} // verus!
