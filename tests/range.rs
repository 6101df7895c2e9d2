use marmelade::range::AddressRange;

#[test]
fn address_range_mask() {
    let range = AddressRange::new_prefix(0x43000000, 8);
    assert_eq!(range, AddressRange { address_start: 0x43000000, address_end: 0x43ffffff });

    let range = AddressRange::new_prefix(0x00000000, 0);
    assert_eq!(range, AddressRange { address_start: 0x00000000, address_end: 0xffffffff });

    let range = AddressRange::new_prefix(0x12345678, 32);
    assert_eq!(range, AddressRange { address_start: 0x12345678, address_end: 0x12345678 });
}

#[test]
fn address_range_contains_value() {
    assert!(AddressRange::new_prefix(0x43000000, 8).contains_value(0x43001010));
    assert!(AddressRange::new_prefix(0x43000000, 8).contains_value(0x43000000));
    assert!(AddressRange::new_prefix(0x43000000, 8).contains_value(0x43ffffff));
    assert!(AddressRange::new_prefix(0x43000000, 8).contains_value(0x43100000));

    assert!(AddressRange::new_prefix(0x43000000, 9).contains_value(0x43001010));
    assert!(AddressRange::new_prefix(0x43000000, 9).contains_value(0x43000000));
    assert!(AddressRange::new_prefix(0x43000000, 9).contains_value(0x437fffff));
    assert!(!AddressRange::new_prefix(0x43000000, 9).contains_value(0x43ffffff));
    assert!(!AddressRange::new_prefix(0x43000000, 9).contains_value(0x43800000));
}

#[test]
fn address_range_contains_range() {
    assert!(AddressRange::new_prefix(0x43000000, 8).contains_range(AddressRange::new_prefix(0x43001010, 32)));
    assert!(AddressRange::new_prefix(0x43000000, 8).contains_range(AddressRange::new_prefix(0x43000000, 32)));
    assert!(AddressRange::new_prefix(0x43000000, 8).contains_range(AddressRange::new_prefix(0x43ffffff, 32)));
    assert!(AddressRange::new_prefix(0x43000000, 8).contains_range(AddressRange::new_prefix(0x43100000, 32)));
    assert!(AddressRange::new_prefix(0x43000000, 9).contains_range(AddressRange::new_prefix(0x43001010, 32)));
    assert!(AddressRange::new_prefix(0x43000000, 9).contains_range(AddressRange::new_prefix(0x43000000, 32)));
    assert!(AddressRange::new_prefix(0x43000000, 9).contains_range(AddressRange::new_prefix(0x437fffff, 32)));
    assert!(!AddressRange::new_prefix(0x43000000, 9).contains_range(AddressRange::new_prefix(0x43ffffff, 32)));
    assert!(!AddressRange::new_prefix(0x43000000, 9).contains_range(AddressRange::new_prefix(0x43800000, 32)));

    assert!(!AddressRange::new_prefix(0x12340000, 24).contains_range(AddressRange::new_prefix(0x12340000, 16)));
}

#[test]
fn map_address() {
    assert_eq!(AddressRange::new_prefix(0x43000000, 9).map(0x43000000, 4), Some(0));
    assert_eq!(AddressRange::new_prefix(0x43000000, 9).map(0x43123456, 4), Some(0x123456));
    assert_eq!(AddressRange::new_prefix(0x43000000, 9).map(0x437fffff, 1), Some(0x7fffff));
    assert_eq!(AddressRange::new_prefix(0x43000000, 9).map(0x437fffff, 2), None);
    assert_eq!(AddressRange::new_prefix(0x43000000, 9).map(0x437fffff, 4), None);
    assert_eq!(AddressRange::new_prefix(0x43000000, 9).map(0x43ffffff, 1), None);
    assert_eq!(AddressRange::new_prefix(0x43000000, 9).map(0x43800000, 4), None);
}

#[test]
fn range_size() {
    assert_eq!(AddressRange::new_prefix(0x43000000, 9).size(), 0x0080_0000);
    assert_eq!(AddressRange::new_prefix(0x43000000, 16).size(), 0x0001_0000);
    assert_eq!(AddressRange::new_prefix(0x43000000, 32).size(), 0x0000_0001);
    assert_eq!(AddressRange::new_prefix(0x80000000, 1).size(), 0x8000_0000);
}

#[test]
fn range_start_and_explicit_bounds() {
    let range = AddressRange::new(0x1000, 0x1fff);
    assert_eq!(range.start(), 0x1000);
    assert_eq!(range.size(), 0x1000);
    assert_eq!(range.map(0x1ffe, 2), Some(0xffe));
    assert_eq!(range.map(0x0fff, 1), None);
}
