//! The trap dispatcher: an unimplemented-instruction exception whose opcode
//! lies in the reserved trap range is looked up in a table of routines; the
//! routine's arguments are popped off the stack, it runs against the core,
//! and its result goes into the caller's result slot.

use vstd::prelude::*;
use crate::bus::{HandlerView, first_loader, loaded_at};
use crate::cpu::{CpuCore, CoreView, ProcessingState, Stackable, stack_replace, pop_view, push_view, top_view};
use crate::prefix::Prefix;
use crate::types::{OSType, u32_bytes};

verus! {

/// What the exception handler tells the CPU core to do.
#[derive(PartialEq, Eq, Structural, Debug, Clone, Copy)]
pub enum TrapResult {
    /// Run the core's own exception handling.
    Exception,
    /// Resume with the next instruction.
    Continue,
    /// Stop: the routine failed.
    Halt,
    /// Stop: no routine is registered for the opcode.
    Unimplemented,
}

/// The emulated OS routines.
#[derive(PartialEq, Eq, Structural, Debug, Clone, Copy)]
pub enum Routine {
    MoreMasters,
    InitGraf,
    InitFonts,
    FlushEvents,
    InitWindows,
    InitMenus,
    TEInit,
    InitCursor,
    InitDialogs,
    MaxApplZone,
    Gestalt,
    HFSDispatch,
    CurResFile,
    GetTrapAddress,
    SysError,
    GetScrap,
    LoadSeg,
}

impl Routine {
    /// Number of arguments the routine takes off the stack.
    pub open spec fn arity_spec(self) -> nat {
        match self {
            Routine::InitDialogs => 1,
            Routine::GetScrap => 3,
            Routine::LoadSeg => 1,
            _ => 0,
        }
    }

    pub fn arity(&self) -> (r: usize)
        ensures
            r == self.arity_spec(),
    {
        match self {
            Routine::InitDialogs => 1,
            Routine::GetScrap => 3,
            Routine::LoadSeg => 1,
            _ => 0,
        }
    }
}

/// One entry of the dispatch table.
#[derive(PartialEq, Eq, Structural, Debug, Clone, Copy)]
pub struct TrapEntry {
    pub opcode: u16,
    pub routine: Routine,
}

/// The routine of the first entry for `opcode`.
pub open spec fn find_routine(entries: Seq<TrapEntry>, opcode: u16) -> Option<Routine>
    decreases entries.len(),
{
    if entries.len() == 0 {
        None
    } else if entries[0].opcode == opcode {
        Some(entries[0].routine)
    } else {
        find_routine(entries.drop_first(), opcode)
    }
}

/// The dispatch table, fixed once built.
pub struct TrapTable {
    entries: Vec<TrapEntry>,
}

/// Address handed out where a routine must give back a pointer it does not
/// have.
pub const PLACEHOLDER_ADDRESS: u32 = 0xcafe_babe;

/// Result code of `Gestalt` for an unknown selector, -5551 as a register
/// value.
pub const GESTALT_UNDEF_SELECTOR: u32 = 0xffff_ea51;

/// Result code of `GetScrap`: no scrap.
pub const NO_SCRAP: i32 = -102;

/// The file reference `CurResFile` answers with.
pub const CUR_RES_FILE: i16 = 1234;

/// Bytes the program counter goes back after a segment load, onto the jump
/// instruction of the patched slot.
pub const LOAD_SEG_REWIND: u32 = 6;

/// The `Gestalt` selector for TextEdit, `te  `.
pub open spec fn te_selector() -> Seq<u8> {
    seq![0x74u8, 0x65u8, 0x20u8, 0x20u8]
}

/// `new` is `old` after the first segment loader of `old` loaded segment
/// `id` with result `r`; with no loader, nothing changes and `r` is `None`.
pub open spec fn loaded_through(old: Seq<(Prefix, HandlerView)>, new: Seq<(Prefix, HandlerView)>, id: i16, r: Option<u32>) -> bool {
    &&& (forall|j: int| 0 <= j < old.len() ==> !(#[trigger] old[j].1 is Loader)) ==> r is None
        && new == old
    &&& forall|k: int| first_loader(old, k) ==> loaded_at(old, new, k, id, r)
}

/// What running `routine` does to the core `c0`, giving `c1` and `r`.
pub open spec fn routine_post(routine: Routine, c0: CoreView, c1: CoreView, r: TrapResult) -> bool {
    match routine {
        Routine::InitDialogs => c1 == pop_view(c0, 4) && r == TrapResult::Continue,
        Routine::MaxApplZone => c1 == (CoreView { dar: c0.dar.update(0, 0x0100_0000), ..c0 }) && r
            == TrapResult::Continue,
        Routine::Gestalt => {
            let code: u32 = if u32_bytes(c0.dar[0]) == te_selector() {
                0
            } else {
                GESTALT_UNDEF_SELECTOR
            };
            c1 == (CoreView { dar: c0.dar.update(0, code).update(8, PLACEHOLDER_ADDRESS), ..c0 })
                && r == TrapResult::Continue
        },
        Routine::HFSDispatch => c1 == c0 && r == TrapResult::Halt,
        Routine::CurResFile => c1 == push_view(pop_view(c0, 2), 2, CUR_RES_FILE.encode()) && r
            == TrapResult::Continue,
        Routine::GetTrapAddress => c1 == (CoreView {
            dar: c0.dar.update(8, PLACEHOLDER_ADDRESS),
            ..c0
        }) && r == TrapResult::Continue,
        Routine::SysError => c1 == c0 && r == TrapResult::Halt,
        Routine::GetScrap => {
            let args = pop_view(pop_view(pop_view(c0, 4), 4), 4);
            c1 == push_view(pop_view(args, 4), 4, NO_SCRAP.encode()) && r == TrapResult::Continue
        },
        Routine::LoadSeg => {
            let id = <i16 as Stackable>::decode(top_view(c0, 2));
            let c = pop_view(c0, 2);
            &&& c1.dar == c.dar
            &&& c1.state == c.state
            &&& exists|lr: Option<u32>|
                #[trigger] loaded_through(c.mem, c1.mem, id, lr) && (lr is Some ==> r
                    == TrapResult::Continue && c1.pc == ((c0.pc + 0x1_0000_0000 - LOAD_SEG_REWIND) % 0x1_0000_0000) as u32)
                    && (lr is None ==> r == TrapResult::Halt && c1.pc == c0.pc)
        },
        _ => c1 == c0 && r == TrapResult::Continue,
    }
}

impl TrapTable {
    pub closed spec fn entries_spec(&self) -> Seq<TrapEntry> {
        self.entries@
    }

    /// The routine registered for `opcode`.
    pub open spec fn lookup_spec(&self, opcode: u16) -> Option<Routine> {
        find_routine(self.entries_spec(), opcode)
    }

    pub fn new(entries: Vec<TrapEntry>) -> (r: TrapTable)
        ensures
            r.entries_spec() == entries@,
    {
        TrapTable { entries }
    }

    /// The routines this shim emulates, by trap opcode.
    pub fn toolbox() -> (r: TrapTable)
        ensures
            r.entries_spec() == toolbox_entries(),
    {
        let entries = vec![
            TrapEntry { opcode: 0xa036, routine: Routine::MoreMasters },
            TrapEntry { opcode: 0xa86e, routine: Routine::InitGraf },
            TrapEntry { opcode: 0xa8fe, routine: Routine::InitFonts },
            TrapEntry { opcode: 0xa032, routine: Routine::FlushEvents },
            TrapEntry { opcode: 0xa912, routine: Routine::InitWindows },
            TrapEntry { opcode: 0xa930, routine: Routine::InitMenus },
            TrapEntry { opcode: 0xa9cc, routine: Routine::TEInit },
            TrapEntry { opcode: 0xa850, routine: Routine::InitCursor },
            TrapEntry { opcode: 0xa97b, routine: Routine::InitDialogs },
            TrapEntry { opcode: 0xa063, routine: Routine::MaxApplZone },
            TrapEntry { opcode: 0xa1ad, routine: Routine::Gestalt },
            TrapEntry { opcode: 0xa260, routine: Routine::HFSDispatch },
            TrapEntry { opcode: 0xa994, routine: Routine::CurResFile },
            TrapEntry { opcode: 0xa346, routine: Routine::GetTrapAddress },
            TrapEntry { opcode: 0xa746, routine: Routine::GetTrapAddress },
            TrapEntry { opcode: 0xa9c9, routine: Routine::SysError },
            TrapEntry { opcode: 0xa9fd, routine: Routine::GetScrap },
            TrapEntry { opcode: 0xa9f0, routine: Routine::LoadSeg },
        ];
        assert(entries@ =~= toolbox_entries());
        TrapTable { entries }
    }

    /// The routine of the first entry for `opcode`.
    pub fn lookup(&self, opcode: u16) -> (r: Option<Routine>)
        ensures
            r == self.lookup_spec(opcode),
    {
        let mut i: usize = 0;
        assert(self.entries@.subrange(0, self.entries@.len() as int) =~= self.entries@);
        while i < self.entries.len()
            invariant
                0 <= i <= self.entries@.len(),
                find_routine(self.entries@, opcode) == find_routine(
                    self.entries@.subrange(i as int, self.entries@.len() as int),
                    opcode,
                ),
            decreases self.entries@.len() - i,
        {
            let ghost rest = self.entries@.subrange(i as int, self.entries@.len() as int);
            assert(rest.drop_first() =~= self.entries@.subrange(i + 1, self.entries@.len() as int));
            assert(rest[0] == self.entries@[i as int]);
            if self.entries[i].opcode == opcode {
                return Some(self.entries[i].routine);
            }
            i += 1;
        }
        None
    }

    /// Runs `routine` against `core`.
    pub fn invoke(routine: Routine, core: &mut CpuCore) -> (r: TrapResult)
        requires
            old(core).wf(),
        ensures
            final(core).wf(),
            routine_post(routine, old(core)@, final(core)@, r),
    {
        match routine {
            Routine::InitDialogs => {
                let _resume_proc = u32::stack_pop(core);
                TrapResult::Continue
            },
            Routine::MaxApplZone => {
                core.set_register(0, 0x0100_0000);
                TrapResult::Continue
            },
            Routine::Gestalt => {
                let selector = OSType::from_u32(core.dar[0]);
                let te = OSType([0x74u8, 0x65u8, 0x20u8, 0x20u8]);
                assert(te.0@ =~= te_selector());
                let code: u32 = if selector == te {
                    0
                } else {
                    GESTALT_UNDEF_SELECTOR
                };
                core.set_register(0, code);
                core.set_register(8, PLACEHOLDER_ADDRESS);
                TrapResult::Continue
            },
            Routine::HFSDispatch => TrapResult::Halt,
            Routine::CurResFile => {
                let _ = stack_replace(&CUR_RES_FILE, core);
                TrapResult::Continue
            },
            Routine::GetTrapAddress => {
                core.set_register(8, PLACEHOLDER_ADDRESS);
                TrapResult::Continue
            },
            Routine::SysError => TrapResult::Halt,
            Routine::GetScrap => {
                // the last argument is on top of the stack
                let _offset = i32::stack_pop(core);
                let _the_type = OSType::stack_pop(core);
                let _h_dest = u32::stack_pop(core);
                let _ = stack_replace(&NO_SCRAP, core);
                TrapResult::Continue
            },
            Routine::LoadSeg => {
                let code_id = i16::stack_pop(core);
                let loaded = core.mem.load_segment(code_id);
                assert(loaded_through(pop_view(old(core)@, 2).mem, core@.mem, code_id, loaded));
                match loaded {
                    Some(_) => {
                        // back onto the jump now patched into the slot
                        core.pc = ((core.pc as u64 + 0x1_0000_0000 - LOAD_SEG_REWIND as u64)
                            % 0x1_0000_0000) as u32;
                        assert(loaded_through(pop_view(old(core)@, 2).mem, core@.mem, code_id, loaded));
                        TrapResult::Continue
                    },
                    None => {
                        assert(loaded_through(pop_view(old(core)@, 2).mem, core@.mem, code_id, loaded));
                        TrapResult::Halt
                    },
                }
            },
            _ => TrapResult::Continue,
        }
    }

    /// Services trap `ir`: runs its routine, or answers `Unimplemented`
    /// when none is registered.
    pub fn dispatch(&self, core: &mut CpuCore, ir: u16) -> (r: TrapResult)
        requires
            old(core).wf(),
        ensures
            final(core).wf(),
            match self.lookup_spec(ir) {
                Some(routine) => routine_post(routine, old(core)@, final(core)@, r),
                None => r == TrapResult::Unimplemented && final(core)@ == old(core)@,
            },
    {
        match self.lookup(ir) {
            Some(routine) => TrapTable::invoke(routine, core),
            None => TrapResult::Unimplemented,
        }
    }

    /// Handles an exception raised by the core: one of the line-1010 kind
    /// (vector 10) is a trap and is dispatched; any other halts. When the
    /// outcome is to stop, the core stops processing instructions.
    pub fn exception_callback(&self, core: &mut CpuCore, ir: u16, pc: u32, vector: u32) -> (r: TrapResult)
        requires
            old(core).wf(),
        ensures
            final(core).wf(),
            vector != 10 ==> r == TrapResult::Halt && final(core)@ == (CoreView {
                state: ProcessingState::Stopped,
                ..old(core)@
            }),
            vector == 10 ==> exists|c: CoreView, t: TrapResult|
                #[trigger] trap_post(self.lookup_spec(ir), old(core)@, c, t) && r == t && (t
                    == TrapResult::Halt || t == TrapResult::Unimplemented ==> final(core)@ == (CoreView {
                    state: ProcessingState::Stopped,
                    ..c
                })) && (t == TrapResult::Continue || t == TrapResult::Exception ==> final(core)@
                    == c),
    {
        let r = if vector == 10 {
            self.dispatch(core, ir)
        } else {
            TrapResult::Halt
        };
        let ghost c = core@;
        match r {
            TrapResult::Halt | TrapResult::Unimplemented => core.stop_instruction_processing(),
            _ => {},
        }
        proof {
            if vector == 10 {
                assert(trap_post(self.lookup_spec(ir), old(core)@, c, r));
            }
        }
        r
    }
}

/// The entries of the emulated routines' table.
pub open spec fn toolbox_entries() -> Seq<TrapEntry> {
    seq![
        TrapEntry { opcode: 0xa036, routine: Routine::MoreMasters },
        TrapEntry { opcode: 0xa86e, routine: Routine::InitGraf },
        TrapEntry { opcode: 0xa8fe, routine: Routine::InitFonts },
        TrapEntry { opcode: 0xa032, routine: Routine::FlushEvents },
        TrapEntry { opcode: 0xa912, routine: Routine::InitWindows },
        TrapEntry { opcode: 0xa930, routine: Routine::InitMenus },
        TrapEntry { opcode: 0xa9cc, routine: Routine::TEInit },
        TrapEntry { opcode: 0xa850, routine: Routine::InitCursor },
        TrapEntry { opcode: 0xa97b, routine: Routine::InitDialogs },
        TrapEntry { opcode: 0xa063, routine: Routine::MaxApplZone },
        TrapEntry { opcode: 0xa1ad, routine: Routine::Gestalt },
        TrapEntry { opcode: 0xa260, routine: Routine::HFSDispatch },
        TrapEntry { opcode: 0xa994, routine: Routine::CurResFile },
        TrapEntry { opcode: 0xa346, routine: Routine::GetTrapAddress },
        TrapEntry { opcode: 0xa746, routine: Routine::GetTrapAddress },
        TrapEntry { opcode: 0xa9c9, routine: Routine::SysError },
        TrapEntry { opcode: 0xa9fd, routine: Routine::GetScrap },
        TrapEntry { opcode: 0xa9f0, routine: Routine::LoadSeg },
    ]
}

/// What servicing a trap whose table entry is `found` does to `c0`.
pub open spec fn trap_post(found: Option<Routine>, c0: CoreView, c1: CoreView, r: TrapResult) -> bool {
    match found {
        Some(routine) => routine_post(routine, c0, c1, r),
        None => r == TrapResult::Unimplemented && c1 == c0,
    }
}

} // verus!
