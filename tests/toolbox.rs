use marmelade::bus::{MemHandler, MuxAddressBus};
use marmelade::cpu::{stack_replace, CpuCore, ProcessingState, Stackable};
use marmelade::mem::{RAM, ROM};
use marmelade::prefix::Prefix;
use marmelade::range::AddressRange;
use marmelade::rsrc::Rsrc;
use marmelade::segment_loader::{SegmentLoader, SEGMENT_MAX_SIZE};
use marmelade::serialization::ReadError;
use marmelade::toolbox::{boot, ENTRY_RETURN, STACK_TOP};
use marmelade::traps::{Routine, TrapEntry, TrapResult, TrapTable};
use marmelade::types::OSType;

fn be16(out: &mut Vec<u8>, v: u16) {
    out.push((v >> 8) as u8);
    out.push(v as u8);
}

fn be32(out: &mut Vec<u8>, v: u32) {
    be16(out, (v >> 16) as u16);
    be16(out, v as u16);
}

/// A resource fork holding `resources`, all of one type `kind`.
fn fork(kind: &[u8; 4], resources: &[(i16, Vec<u8>)]) -> Vec<u8> {
    let mut data = Vec::new();
    let mut offsets = Vec::new();
    for (_, bytes) in resources {
        offsets.push(data.len() as u32);
        be32(&mut data, bytes.len() as u32);
        data.extend_from_slice(bytes);
    }
    let mut map = vec![0u8; 22];
    be16(&mut map, 0); // attributes
    be16(&mut map, 28); // type list offset
    let name_list = 28 + 2 + 8 + 12 * resources.len();
    be16(&mut map, name_list as u16);
    be16(&mut map, 0); // one type
    map.extend_from_slice(kind);
    be16(&mut map, resources.len() as u16 - 1);
    be16(&mut map, 10); // reference list, from the type list
    for ((id, _), off) in resources.iter().zip(offsets) {
        be16(&mut map, *id as u16);
        be16(&mut map, 0xffff); // no name
        map.push(0);
        map.push((off >> 16) as u8);
        be16(&mut map, off as u16);
        be32(&mut map, 0);
    }
    let mut out = Vec::new();
    be32(&mut out, 16);
    be32(&mut out, 16 + data.len() as u32);
    be32(&mut out, data.len() as u32);
    be32(&mut out, map.len() as u32);
    out.extend_from_slice(&data);
    out.extend_from_slice(&map);
    out
}

const OFFSET_A5: u32 = 0x20;

/// Segment 0: a jump-table header, then three slots: two calling into
/// segment 7 (offsets 0 and 0x10) and one into segment 8.
fn jump_table() -> Vec<u8> {
    let mut v = Vec::new();
    be32(&mut v, 0x100);
    be32(&mut v, 0x20);
    be32(&mut v, 24);
    be32(&mut v, OFFSET_A5);
    v.extend_from_slice(&[0x00, 0x00, 0x3f, 0x3c, 0x00, 0x07, 0xa9, 0xf0]);
    v.extend_from_slice(&[0x00, 0x10, 0x3f, 0x3c, 0x00, 0x07, 0xa9, 0xf0]);
    v.extend_from_slice(&[0x00, 0x04, 0x3f, 0x3c, 0x00, 0x08, 0xa9, 0xf0]);
    v
}

fn segment(code: &[u8]) -> Vec<u8> {
    let mut v = vec![0x00, 0x00, 0x00, 0x01];
    v.extend_from_slice(code);
    v
}

fn code_fork() -> Rsrc {
    Rsrc::new(fork(
        b"CODE",
        &[(0, jump_table()), (7, segment(&[0xaa, 0xbb])), (8, segment(&[0x4e, 0x75]))],
    ))
    .unwrap()
}

const WINDOW: u32 = 0x2000_0000;

fn loader() -> SegmentLoader {
    SegmentLoader::new(AddressRange::new_prefix(WINDOW, 8), code_fork())
}

#[test]
fn rsrc_open_finds_resources() {
    let rsrc = code_fork();
    assert_eq!(rsrc.open(OSType(*b"CODE"), 7).unwrap().to_vec(), segment(&[0xaa, 0xbb]));
    assert_eq!(rsrc.open(OSType(*b"CODE"), 9).err(), Some(ReadError::NotFound));
    assert_eq!(rsrc.open(OSType(*b"DATA"), 7).err(), Some(ReadError::NotFound));
}

#[test]
fn rsrc_rejects_short_fork() {
    assert!(Rsrc::new(vec![0, 0, 0, 16]).is_err());
}

#[test]
fn loader_loads_jump_table_first() {
    let sl = loader();
    assert_eq!(sl.get_a5(), WINDOW - OFFSET_A5);
    assert_eq!(sl.get_start(), WINDOW + 2);
    // the slots are still calls into the loader
    assert_eq!(sl.read(0, 4), 0x00003f3c);
}

#[test]
fn load_segment_after_jump_table() {
    let mut sl = loader();
    let address = sl.load(7);
    assert_eq!(address, Some(SEGMENT_MAX_SIZE + WINDOW));
    assert_eq!(sl.read(SEGMENT_MAX_SIZE, 2), 0xaabb);
    assert_eq!(sl.read(SEGMENT_MAX_SIZE + 2, 1), 0xff);
}

#[test]
fn load_first_segment_without_jump_table() {
    let rsrc = Rsrc::new(fork(b"CODE", &[(7, segment(&[0xaa, 0xbb]))])).unwrap();
    let mut sl = SegmentLoader::new(AddressRange::new_prefix(WINDOW, 8), rsrc);
    assert_eq!(sl.load(7), Some(0 * SEGMENT_MAX_SIZE + WINDOW));
    assert_eq!(sl.read(0, 2), 0xaabb);
}

#[test]
fn load_twice_gives_same_address() {
    let mut sl = loader();
    let first = sl.load(8);
    let second = sl.load(8);
    assert_eq!(first, Some(SEGMENT_MAX_SIZE + WINDOW));
    assert_eq!(first, second);
    // the next new segment takes the next slot, not a third one
    assert_eq!(sl.load(7), Some(2 * SEGMENT_MAX_SIZE + WINDOW));
}

#[test]
fn load_unknown_segment_fails() {
    let mut sl = loader();
    assert_eq!(sl.load(42), None);
    assert_eq!(sl.load(8), Some(SEGMENT_MAX_SIZE + WINDOW));
}

#[test]
fn load_patches_matching_slots_only() {
    let mut sl = loader();
    let address = sl.load(7).unwrap();
    // slot 0: id 7, jmp to offset 0 + address
    assert_eq!(sl.read(0, 4), 0x00074ef9);
    assert_eq!(sl.read(4, 4), address);
    // slot 1: id 7, jmp to offset 0x10 + address
    assert_eq!(sl.read(8, 4), 0x00074ef9);
    assert_eq!(sl.read(12, 4), address + 0x10);
    // slot 2 still calls segment 8 through the trap
    assert_eq!(sl.read(16, 4), 0x00043f3c);
    assert_eq!(sl.read(20, 4), 0x0008a9f0);
}

fn core_with(sl: Option<SegmentLoader>) -> CpuCore {
    let mut mem = MuxAddressBus::new();
    if let Some(sl) = sl {
        mem.add_prefix(Prefix::new(WINDOW, 8), MemHandler::Loader(sl));
    }
    mem.add_prefix(Prefix::new(0x10f0_0000, 12), MemHandler::Ram(RAM::new(0x0010_0000)));
    let mut core = CpuCore::new(mem);
    core.set_register(15, 0x1100_0000);
    core
}

#[test]
fn max_appl_zone_sets_d0_and_continues() {
    let table = TrapTable::toolbox();
    let mut core = core_with(None);
    let r = table.exception_callback(&mut core, 0xa063, 0x1000, 10);
    assert_eq!(r, TrapResult::Continue);
    assert_eq!(core.dar[0], 0x0100_0000);
    assert_eq!(core.processing_state, ProcessingState::Normal);
}

#[test]
fn unmapped_opcode_stops_the_core() {
    let table = TrapTable::toolbox();
    let mut core = core_with(None);
    let r = table.exception_callback(&mut core, 0xa123, 0x1000, 10);
    assert_eq!(r, TrapResult::Unimplemented);
    assert_eq!(core.processing_state, ProcessingState::Stopped);
}

#[test]
fn other_exception_halts() {
    let table = TrapTable::toolbox();
    let mut core = core_with(None);
    assert_eq!(table.exception_callback(&mut core, 0xa063, 0x1000, 4), TrapResult::Halt);
    assert_eq!(core.processing_state, ProcessingState::Stopped);
    assert_eq!(core.dar[0], 0);
}

#[test]
fn failing_routine_halts() {
    let table = TrapTable::toolbox();
    let mut core = core_with(None);
    assert_eq!(table.exception_callback(&mut core, 0xa9c9, 0x1000, 10), TrapResult::Halt);
    assert_eq!(core.processing_state, ProcessingState::Stopped);
}

#[test]
fn custom_table_dispatch() {
    let table = TrapTable::new(vec![TrapEntry { opcode: 0xa000, routine: Routine::GetTrapAddress }]);
    let mut core = core_with(None);
    assert_eq!(table.dispatch(&mut core, 0xa000), TrapResult::Continue);
    assert_eq!(core.dar[8], 0xcafe_babe);
    assert_eq!(table.dispatch(&mut core, 0xa063), TrapResult::Unimplemented);
    assert_eq!(Routine::GetScrap.arity(), 3);
}

#[test]
fn gestalt_answers_by_selector() {
    let table = TrapTable::toolbox();
    let mut core = core_with(None);
    core.set_register(0, u32::from_be_bytes(*b"te  "));
    assert_eq!(table.dispatch(&mut core, 0xa1ad), TrapResult::Continue);
    assert_eq!(core.dar[0], 0);
    core.set_register(0, u32::from_be_bytes(*b"sysv"));
    table.dispatch(&mut core, 0xa1ad);
    assert_eq!(core.dar[0] as i32, -5551);
    assert_eq!(core.dar[8], 0xcafe_babe);
}

#[test]
fn get_scrap_pops_arguments_and_replaces_result() {
    let table = TrapTable::toolbox();
    let mut core = core_with(None);
    0u32.stack_push(&mut core); // result slot
    0x1234_5678u32.stack_push(&mut core); // hDest
    OSType(*b"TEXT").stack_push(&mut core); // theType
    7i32.stack_push(&mut core); // offset
    assert_eq!(table.dispatch(&mut core, 0xa9fd), TrapResult::Continue);
    assert_eq!(core.dar[15], 0x1100_0000 - 4);
    assert_eq!(i32::stack_pop(&mut core), -102);
}

#[test]
fn cur_res_file_fills_result_slot() {
    let table = TrapTable::toolbox();
    let mut core = core_with(None);
    0i16.stack_push(&mut core);
    assert_eq!(table.dispatch(&mut core, 0xa994), TrapResult::Continue);
    assert_eq!(i16::stack_pop(&mut core), 1234);
    assert_eq!(core.dar[15], 0x1100_0000);
}

#[test]
fn i8_push_pop_round_trip() {
    let mut core = core_with(None);
    (-5i8).stack_push(&mut core);
    assert_eq!(core.dar[15], 0x1100_0000 - 2);
    assert_eq!(core.mem.read(core.dar[15], 2), 0xfffb);
    assert_eq!(i8::stack_pop(&mut core), -5);
    assert_eq!(core.dar[15], 0x1100_0000);

    5i8.stack_push(&mut core);
    assert_eq!(core.mem.read(core.dar[15], 2), 0x0005);
    assert_eq!(i8::stack_pop(&mut core), 5);
}

#[test]
fn u8_and_unit_on_the_stack() {
    let mut core = core_with(None);
    0xf0u8.stack_push(&mut core);
    assert_eq!(core.mem.read(core.dar[15], 2), 0x00f0);
    assert_eq!(u8::stack_pop(&mut core), 0xf0);
    ().stack_push(&mut core);
    assert_eq!(core.dar[15], 0x1100_0000);
}

#[test]
fn replace_swaps_top_word() {
    let mut core = core_with(None);
    0x1111u16.stack_push(&mut core);
    let sp = core.dar[15];
    let old = stack_replace(&0x2222u16, &mut core);
    assert_eq!(old, 0x1111);
    assert_eq!(core.dar[15], sp);
    assert_eq!(u16::stack_pop(&mut core), 0x2222);
}

#[test]
fn load_seg_trap_patches_and_rewinds() {
    let table = TrapTable::toolbox();
    let mut core = core_with(Some(loader()));
    core.jump(0x2000_0008);
    7i16.stack_push(&mut core);
    let pc = core.pc;
    let r = table.exception_callback(&mut core, 0xa9f0, pc, 10);
    assert_eq!(r, TrapResult::Continue);
    assert_eq!(core.pc, 0x2000_0002);
    assert_eq!(core.dar[15], 0x1100_0000);
    assert_eq!(core.mem.read(WINDOW, 4), 0x00074ef9);
    assert_eq!(core.mem.read(WINDOW + 4, 4), SEGMENT_MAX_SIZE + WINDOW);
}

#[test]
fn load_seg_of_unknown_segment_halts() {
    let table = TrapTable::toolbox();
    let mut core = core_with(Some(loader()));
    core.jump(0x2000_0008);
    42i16.stack_push(&mut core);
    let pc = core.pc;
    let r = table.exception_callback(&mut core, 0xa9f0, pc, 10);
    assert_eq!(r, TrapResult::Halt);
    assert_eq!(core.processing_state, ProcessingState::Stopped);
    assert_eq!(core.pc, 0x2000_0008);
}

#[test]
fn router_first_registered_wins() {
    let mut bus = MuxAddressBus::new();
    bus.add_prefix(Prefix::new(0x0000_1000, 20), MemHandler::Rom(ROM::from(vec![0x3f, 0x3c, 0x00, 0x01])));
    bus.add_prefix(Prefix::new(0x0000_0000, 16), MemHandler::Ram(RAM::from(vec![0x11; 0x2000])));
    assert_eq!(bus.read(0x1000, 4), 0x3f3c_0001);
    assert_eq!(bus.read(0x0ffe, 2), 0x1111);
    // a write to ROM is dropped
    bus.write(0x1000, 2, 0xbeef);
    assert_eq!(bus.read(0x1000, 2), 0x3f3c);
}

#[test]
fn router_unmapped_reads_all_ones() {
    let mut bus = MuxAddressBus::new();
    bus.add_prefix(Prefix::new(0x0000_0000, 20), MemHandler::Ram(RAM::new(0x1000)));
    assert_eq!(bus.read(0x8000_0000, 1), 0xff);
    assert_eq!(bus.read(0x8000_0000, 2), 0xffff);
    assert_eq!(bus.read(0x8000_0000, 4), 0xffff_ffff);
    bus.write(0x8000_0000, 4, 0);
    // a long access that runs past the window is unmapped too
    assert_eq!(bus.read(0x0000_0ffe, 4), 0xffff_ffff);
    bus.write(0x0000_0010, 4, 0xdead_beef);
    assert_eq!(bus.read(0x0000_0010, 4), 0xdead_beef);
    assert_eq!(bus.read(0x0000_0012, 1), 0xbe);
}

#[test]
fn boot_seeds_registers_and_stack() {
    let core = boot(code_fork());
    assert_eq!(core.pc, WINDOW + 2);
    assert_eq!(core.dar[13], WINDOW - OFFSET_A5);
    assert_eq!(core.dar[15], STACK_TOP - 4);
    assert_eq!(core.mem.read(core.dar[15], 4), ENTRY_RETURN);
    assert_eq!(core.processing_state, ProcessingState::Normal);
    // the first jump-table slot is readable through the router
    assert_eq!(core.mem.read(WINDOW, 4), 0x00003f3c);
}
