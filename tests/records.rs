use marmelade::catalog::{CatDataRec, CatKeyRec, Point};
use marmelade::icon::{icon_pixel, IconPixel};
use marmelade::rsrc::{RsrcHeader, RsrcMapHeader, RsrcObj};
use marmelade::serialization::{ReadError, SerialReadStorage};
use marmelade::types::{DateTime, OSType, PString};

#[test]
fn named_resource_entry() {
    let maphdr = RsrcMapHeader { attributes: 0, type_list_offset: 0, name_list_offset: 12 };
    let mut rdr = SerialReadStorage::from(vec![
        0x00, 0x07, 0x00, 0x00, 0x01, 0x00, 0x00, 0x10, 0, 0, 0, 0, 3, b'a', b'b', b'c',
    ]);
    let obj = RsrcObj::read(&mut rdr, &maphdr).unwrap();
    assert_eq!(obj.id, 7);
    assert_eq!(obj.attributes, 1);
    assert_eq!(obj.data_offset, 0x10);
    assert_eq!(obj.name.unwrap().as_bytes(), b"abc");
    assert_eq!(rdr.pos(), 12);
}

#[test]
fn unnamed_resource_entry() {
    let maphdr = RsrcMapHeader { attributes: 0, type_list_offset: 0, name_list_offset: 12 };
    let mut rdr = SerialReadStorage::from(vec![0xff, 0xfe, 0xff, 0xff, 0x00, 0x01, 0x02, 0x03, 0, 0, 0, 0]);
    let obj = RsrcObj::read(&mut rdr, &maphdr).unwrap();
    assert_eq!(obj.id, -2);
    assert!(obj.name.is_none());
    assert_eq!(obj.data_offset, 0x010203);
}

#[test]
fn resource_header_fields() {
    let mut rdr = SerialReadStorage::from(vec![0, 0, 1, 0, 0, 0, 2, 0, 0, 0, 0, 16, 0, 0, 0, 32]);
    let h = RsrcHeader::read(&mut rdr).unwrap();
    assert_eq!((h.data_offset, h.map_offset, h.data_len, h.map_len), (256, 512, 16, 32));
    assert_eq!(RsrcHeader::read(&mut rdr).err(), Some(ReadError::UnexpectedEof));
}

#[test]
fn unknown_catalog_record_type() {
    let mut rdr = SerialReadStorage::from(vec![5, 0, 0, 0]);
    assert_eq!(CatDataRec::read(&mut rdr).err(), Some(ReadError::InvalidData));
}

#[test]
fn catalog_key_and_point() {
    let mut rdr = SerialReadStorage::from(vec![7, 0, 0, 0, 0, 2, 2, b'h', b'i', 0xff, 0xff, 0, 3]);
    let key = CatKeyRec::read(&mut rdr).unwrap();
    assert_eq!(key.ckrParID, 2);
    assert_eq!(key.ckrCName.as_bytes(), b"hi");
    let p = Point::read(&mut rdr).unwrap();
    assert_eq!((p.v, p.h), (-1, 3));
}

#[test]
fn pstring_and_ostype() {
    let mut rdr = SerialReadStorage::from(vec![2, b'o', b'k', b'T', b'E', b'X', b'T']);
    assert_eq!(PString::read(&mut rdr).unwrap().as_bytes(), b"ok");
    let t = OSType::read(&mut rdr).unwrap();
    assert_eq!(t, OSType(*b"TEXT"));
    assert_eq!(t.as_u32(), 0x5445_5854);
    assert_eq!(OSType::from_u32(0x5445_5854), t);
    let mut short = SerialReadStorage::from(vec![5, b'a']);
    assert!(PString::read(&mut short).is_err());
}

#[test]
fn timestamps_count_from_1904() {
    assert_eq!(DateTime(2082844800).unix_timestamp(), 0);
    assert_eq!(DateTime(0).unix_timestamp(), -2082844800);
}

#[test]
fn icon_pixels_follow_mask_then_image() {
    let mut icon = vec![0u8; 256];
    icon[128] = 0xc0; // mask: first two pixels of row 0
    icon[0] = 0x80; // image: first pixel black
    assert_eq!(icon_pixel(&icon, 0, 0), IconPixel::Black);
    assert_eq!(icon_pixel(&icon, 1, 0), IconPixel::White);
    assert_eq!(icon_pixel(&icon, 2, 0), IconPixel::Transparent);
    icon[128 + 4] = 0x01; // mask: last pixel of byte 1 of row 1
    assert_eq!(icon_pixel(&icon, 7, 1), IconPixel::White);
}
