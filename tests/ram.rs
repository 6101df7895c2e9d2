use marmelade::peripheral::RAM;
use marmelade::range::AddressRange;

fn preset() -> RAM {
    let mut mem = RAM::new(AddressRange::new_prefix(0x20000000, 16));
    mem.mem_write(0x20000000, &[0x01u8, 0x23u8, 0x45u8, 0x67u8][..]);
    mem
}

#[test]
fn mem_read_u32() {
    let mem = preset();
    assert_eq!(Some(&[0x01u8, 0x23u8, 0x45u8, 0x67u8][..]), mem.mem_read(0x20000000, 4));
}

#[test]
fn mem_read_u16() {
    let mem = preset();
    assert_eq!(Some(&[0x01u8, 0x23u8][..]), mem.mem_read(0x20000000, 2));
    assert_eq!(Some(&[0x45u8, 0x67u8][..]), mem.mem_read(0x20000002, 2));
}

#[test]
fn mem_read_u8() {
    let mem = preset();
    assert_eq!(Some(&[0x45u8][..]), mem.mem_read(0x20000002, 1));
}

#[test]
fn mem_write_u32() {
    let mut mem = RAM::new(AddressRange::new_prefix(0x20000000, 16));
    assert_eq!(Some(()), mem.mem_write(0x20001234, &[0xbau8, 0xddu8, 0xecu8, 0xafu8][..]));
    assert_eq!(Some(&[0xbau8, 0xddu8, 0xecu8, 0xafu8][..]), mem.mem_read(0x20001234, 4));
}

#[test]
fn mem_write_u32_read_u16() {
    let mut mem = RAM::new(AddressRange::new_prefix(0x20000000, 16));
    assert_eq!(Some(()), mem.mem_write(0x20001234, &[0xbau8, 0xddu8, 0xecu8, 0xafu8][..]));
    assert_eq!(Some(&[0xbau8, 0xddu8][..]), mem.mem_read(0x20001234, 2));
    assert_eq!(Some(&[0xecu8, 0xafu8][..]), mem.mem_read(0x20001236, 2));
}

#[test]
fn mem_read_over_end() {
    let mem = RAM::new(AddressRange::new_prefix(0x20000000, 16));
    assert_eq!(None, mem.mem_read(0x2000fffe, 4));
}

#[test]
fn mem_read_out_of_block() {
    let mem = RAM::new(AddressRange::new_prefix(0x20000000, 16));
    assert_eq!(None, mem.mem_read(0x21000000, 4));
}

#[test]
fn mem_write_out_of_block() {
    let mut mem = RAM::new(AddressRange::new_prefix(0x20000000, 16));
    assert_eq!(None, mem.mem_write(0x21000000, &[0x12u8, 0x34u8][..]));
}

#[test]
fn fresh_ram_reads_all_ones() {
    let mem = RAM::new(AddressRange::new_prefix(0x20000000, 16));
    assert_eq!(Some(&[0xffu8, 0xffu8][..]), mem.mem_read(0x2000fffe, 2));
}
