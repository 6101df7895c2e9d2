use marmelade::catalog::CatDataRec;
use marmelade::volume::{split_path, HfsImage, ROOT_DIR};

fn put16(img: &mut [u8], at: usize, v: u16) {
    img[at] = (v >> 8) as u8;
    img[at + 1] = v as u8;
}

fn put32(img: &mut [u8], at: usize, v: u32) {
    put16(img, at, (v >> 16) as u16);
    put16(img, at + 2, v as u16);
}

const MDB: usize = 1024;
const ALLOC: usize = 2048;
const HEADER_NODE: usize = ALLOC;
const LEAF_NODE: usize = ALLOC + 512;
const RSRC: usize = ALLOC + 1024;

/// A volume with a directory `Apps` in the root holding a file `Hello`
/// whose resource fork is four bytes.
fn image() -> Vec<u8> {
    let mut img = vec![0u8; RSRC + 512];
    // master directory block
    put16(&mut img, MDB, 0x4244);
    put32(&mut img, MDB + 20, 512); // allocation block size
    put16(&mut img, MDB + 28, 4); // first allocation block, in sectors
    put16(&mut img, MDB + 150, 0); // catalog extent: block 0
    put16(&mut img, MDB + 152, 2); // two blocks

    // header node
    put16(&mut img, HEADER_NODE + 8, 0x0100); // type 1, height 0
    put16(&mut img, HEADER_NODE + 10, 3);
    put32(&mut img, HEADER_NODE + 14 + 10, 1); // first leaf
    put32(&mut img, HEADER_NODE + 14 + 22, 2); // nodes
    put16(&mut img, HEADER_NODE + 504, 256);
    put16(&mut img, HEADER_NODE + 506, 248);
    put16(&mut img, HEADER_NODE + 508, 120);
    put16(&mut img, HEADER_NODE + 510, 14);

    // leaf node
    put16(&mut img, LEAF_NODE + 8, 0xff01); // type -1, height 1
    put16(&mut img, LEAF_NODE + 10, 2);
    // record 0: directory "Apps" (id 16) in the root
    let r0 = LEAF_NODE + 14;
    img[r0] = 10;
    put32(&mut img, r0 + 2, ROOT_DIR);
    img[r0 + 6] = 4;
    img[r0 + 7..r0 + 11].copy_from_slice(b"Apps");
    img[r0 + 12] = 1; // directory record
    put32(&mut img, r0 + 14 + 4, 16);
    // record 1: file "Hello" in directory 16
    let r1 = LEAF_NODE + 96;
    img[r1] = 11;
    put32(&mut img, r1 + 2, 16);
    img[r1 + 6] = 5;
    img[r1 + 7..r1 + 12].copy_from_slice(b"Hello");
    img[r1 + 12] = 2; // file record
    let fil = r1 + 14;
    put32(&mut img, fil + 34, 4); // resource fork length
    put16(&mut img, fil + 84, 2); // resource fork extent: block 2
    put16(&mut img, fil + 86, 1);
    put16(&mut img, LEAF_NODE + 506, 210);
    put16(&mut img, LEAF_NODE + 508, 96);
    put16(&mut img, LEAF_NODE + 510, 14);

    img[RSRC..RSRC + 4].copy_from_slice(&[1, 2, 3, 4]);
    img
}

#[test]
fn volume_lists_root() {
    let img = HfsImage::from(image()).unwrap();
    let entries = img.dir_entries(ROOT_DIR);
    assert_eq!(entries.len(), 1);
    assert_eq!(entries[0].0.ckrCName.as_bytes(), b"Apps");
    assert!(matches!(entries[0].1, CatDataRec::CdrDirRec(_)));
}

#[test]
fn volume_locates_file_and_resource_fork() {
    let img = HfsImage::from(image()).unwrap();
    let file = match img.locate(b"Apps:Hello") {
        Some(CatDataRec::CdrFilRec(f)) => f,
        other => panic!("not a file: {:?}", other),
    };
    assert_eq!(file.filRLgLen, 4);
    assert_eq!(img.open_rsrc(&file).unwrap().to_vec(), vec![1, 2, 3, 4]);
    assert_eq!(img.open(&file).unwrap().to_vec(), Vec::<u8>::new());
}

#[test]
fn volume_locate_misses() {
    let img = HfsImage::from(image()).unwrap();
    assert!(img.locate(b"Hello").is_none());
    assert!(img.locate(b"Apps:Nope").is_none());
    assert!(matches!(img.locate(b"Apps"), Some(CatDataRec::CdrDirRec(_))));
}

#[test]
fn volume_rejects_bad_signature() {
    let mut raw = image();
    raw[MDB] = 0;
    assert!(HfsImage::from(raw).is_err());
    assert!(HfsImage::from(vec![0u8; 100]).is_err());
}

#[test]
fn path_parts() {
    let parts = split_path(b"a:bc:");
    assert_eq!(parts, vec![b"a".to_vec(), b"bc".to_vec(), Vec::new()]);
}
