use marmelade::hfs::{BTreeNode, BlockAccess, ExtDataRec, ExtDescriptor, FileBlock, HfsVolBitmap};
use marmelade::serialization::{ReadError, SerialRead, SerialReadStorage};
use marmelade::volume::{FileIO, SeekFrom};

/// A disk of `size` bytes whose byte at position `p` is `p`.
fn mock_ba(size: u64, blocksize: u64) -> BlockAccess {
    let disk: Vec<u8> = (0..size).map(|p| p as u8).collect();
    BlockAccess::new(disk, 0, blocksize)
}

#[test]
fn read_ext_single_block() -> Result<(), ReadError> {
    let ba = mock_ba(50, 8);

    let datarec = ExtDataRec([
        ExtDescriptor { xdrStABN: 1, xdrNumABlks: 1 },
        ExtDescriptor { xdrStABN: 0, xdrNumABlks: 0 },
        ExtDescriptor { xdrStABN: 0, xdrNumABlks: 0 },
    ]);
    assert_eq!(ba.read_extdatarec(&datarec, 0, 8)?.to_vec(), [8, 9, 10, 11, 12, 13, 14, 15]);
    Ok(())
}

#[test]
fn read_ext_multi_block_offset() -> Result<(), ReadError> {
    let ba = mock_ba(50, 4);

    let datarec = ExtDataRec([
        ExtDescriptor { xdrStABN: 2, xdrNumABlks: 3 },
        ExtDescriptor { xdrStABN: 0, xdrNumABlks: 0 },
        ExtDescriptor { xdrStABN: 0, xdrNumABlks: 0 },
    ]);
    assert_eq!(ba.read_extdatarec(&datarec, 2, 8)?.to_vec(), [10, 11, 12, 13, 14, 15, 16, 17]);
    Ok(())
}

#[test]
fn read_ext_no_continous_block() -> Result<(), ReadError> {
    let ba = mock_ba(50, 4);

    let datarec = ExtDataRec([
        ExtDescriptor { xdrStABN: 1, xdrNumABlks: 1 },
        ExtDescriptor { xdrStABN: 0, xdrNumABlks: 1 },
        ExtDescriptor { xdrStABN: 2, xdrNumABlks: 1 },
    ]);
    assert_eq!(ba.read_extdatarec(&datarec, 2, 8)?.to_vec(), [6, 7, 0, 1, 2, 3, 8, 9]);
    Ok(())
}

#[test]
fn read_ext_outside_disk_fails() {
    let ba = mock_ba(50, 8);
    let datarec = ExtDataRec([
        ExtDescriptor { xdrStABN: 10, xdrNumABlks: 1 },
        ExtDescriptor { xdrStABN: 0, xdrNumABlks: 0 },
        ExtDescriptor { xdrStABN: 0, xdrNumABlks: 0 },
    ]);
    assert_eq!(ba.read_extdatarec(&datarec, 0, 4).err(), Some(ReadError::UnexpectedEof));
}

#[test]
fn read_ext_past_last_extent_is_cut_short() -> Result<(), ReadError> {
    let ba = mock_ba(50, 4);
    let datarec = ExtDataRec([
        ExtDescriptor { xdrStABN: 1, xdrNumABlks: 1 },
        ExtDescriptor { xdrStABN: 0, xdrNumABlks: 0 },
        ExtDescriptor { xdrStABN: 0, xdrNumABlks: 0 },
    ]);
    assert_eq!(ba.read_extdatarec(&datarec, 1, 10)?.to_vec(), [5, 6, 7]);
    Ok(())
}

#[test]
fn unpack_tree_node() {
    let mut rdr = SerialReadStorage::from(vec![
        0, 0, 1, 0, // nd.ndFLink
        0, 0, 2, 0, // nd.ndBLink
        12, // nd.ndType
        7, // nd.ndNHeight
        0, 3, // nd.ndNRecs
        0, 0, // nd.ndResv2
        0, 1, 2, 3, 4, 5, 6, 7, // Data
        100, 101, 102, 103, 104, 105, 106, 107, // Unused
        0, 22, 0, 18, 0, 16, 0, 14, // Index
    ]);
    let mut bt = BTreeNode::new(&mut rdr).unwrap();
    assert_eq!(bt.nd.ndFLink, 256);
    assert_eq!(bt.nd.ndBLink, 512);
    assert_eq!(bt.nd.ndType, 12);
    assert_eq!(bt.nd.ndNHeight, 7);
    assert_eq!(bt.nd.ndNRecs, 3);
    assert_eq!(bt.nd.ndResv2, 0);

    assert_eq!(bt.recs.len(), 3);

    assert_eq!(bt.recs[0].size(), 2);
    assert_eq!(u16::read(&mut bt.recs[0]).unwrap(), 0x0001u16);

    assert_eq!(bt.recs[1].size(), 2);
    assert_eq!(u16::read(&mut bt.recs[1]).unwrap(), 0x0203u16);

    assert_eq!(bt.recs[2].size(), 4);
    assert_eq!(u32::read(&mut bt.recs[2]).unwrap(), 0x04050607u32);
}

#[test]
fn page_used_bit_order() {
    let bm = HfsVolBitmap::from(FileBlock::from(vec![0xffu8, 0xf0u8, 0x00u8]));
    assert_eq!(bm.page_used(0), true);
    assert_eq!(bm.page_used(7), true);
    assert_eq!(bm.page_used(8), true);
    assert_eq!(bm.page_used(15), false);
    assert_eq!(bm.page_used(16), false);
    assert_eq!(bm.page_used(23), false);
}

#[test]
fn page_used_single_bit() {
    let bm = HfsVolBitmap::from(FileBlock::from(vec![0x00u8, 0x40u8]));
    assert_eq!(bm.page_used(9), true);
    assert_eq!(bm.page_used(8), false);
    assert_eq!(bm.page_used(10), false);
}

#[test]
fn file_io_reads_and_seeks() {
    let ba = mock_ba(50, 4);
    let rec = ExtDataRec([
        ExtDescriptor { xdrStABN: 1, xdrNumABlks: 1 },
        ExtDescriptor { xdrStABN: 3, xdrNumABlks: 1 },
        ExtDescriptor { xdrStABN: 0, xdrNumABlks: 0 },
    ]);
    let mut f = FileIO::open(&ba, 6, rec);
    assert_eq!(f.read(3), Ok(vec![4, 5, 6]));
    assert_eq!(f.read(10), Ok(vec![7, 12, 13]));
    assert_eq!(f.read(10), Ok(vec![]));
    assert_eq!(f.seek(SeekFrom::Start(6)), Err(ReadError::InvalidData));
    assert_eq!(f.seek(SeekFrom::End(-2)), Ok(4));
    assert_eq!(f.read(1), Ok(vec![12]));
    assert_eq!(f.seek(SeekFrom::Current(-5)), Ok(0));
    assert_eq!(f.seek(SeekFrom::Current(-1)), Err(ReadError::InvalidData));
}
