use marmelade::prefix::{Prefix, PrefixMap};

#[test]
fn address_prefix_mask() {
    let prefix = Prefix::new(0x43000000, 8);
    assert_eq!(prefix, Prefix { mask: 0xff000000, address: 0x43000000 });

    let prefix = Prefix::new(0x00000000, 0);
    assert_eq!(prefix, Prefix { mask: 0x00000000, address: 0x00000000 });

    let prefix = Prefix::new(0x12345678, 32);
    assert_eq!(prefix, Prefix { mask: 0xffffffff, address: 0x12345678 });
}

#[test]
fn address_prefix_contains_value() {
    assert!(Prefix::new(0x43000000, 8).contains_value(0x43001010));
    assert!(Prefix::new(0x43000000, 8).contains_value(0x43000000));
    assert!(Prefix::new(0x43000000, 8).contains_value(0x43ffffff));
    assert!(Prefix::new(0x43000000, 8).contains_value(0x43100000));

    assert!(Prefix::new(0x43000000, 9).contains_value(0x43001010));
    assert!(Prefix::new(0x43000000, 9).contains_value(0x43000000));
    assert!(Prefix::new(0x43000000, 9).contains_value(0x437fffff));
    assert!(!Prefix::new(0x43000000, 9).contains_value(0x43ffffff));
    assert!(!Prefix::new(0x43000000, 9).contains_value(0x43800000));
}

#[test]
fn address_prefix_contains_prefix() {
    assert!(Prefix::new(0x43000000, 8).contains_prefix(Prefix::new(0x43001010, 32)));
    assert!(Prefix::new(0x43000000, 8).contains_prefix(Prefix::new(0x43000000, 32)));
    assert!(Prefix::new(0x43000000, 8).contains_prefix(Prefix::new(0x43ffffff, 32)));
    assert!(Prefix::new(0x43000000, 8).contains_prefix(Prefix::new(0x43100000, 32)));
    assert!(Prefix::new(0x43000000, 9).contains_prefix(Prefix::new(0x43001010, 32)));
    assert!(Prefix::new(0x43000000, 9).contains_prefix(Prefix::new(0x43000000, 32)));
    assert!(Prefix::new(0x43000000, 9).contains_prefix(Prefix::new(0x437fffff, 32)));
    assert!(!Prefix::new(0x43000000, 9).contains_prefix(Prefix::new(0x43ffffff, 32)));
    assert!(!Prefix::new(0x43000000, 9).contains_prefix(Prefix::new(0x43800000, 32)));

    assert!(!Prefix::new(0x12340000, 24).contains_prefix(Prefix::new(0x12340000, 16)));
}

#[test]
fn locate_map() {
    let map = PrefixMap::from(vec![
        (Prefix::new(0x00000000, 20), 1),
        (Prefix::new(0x00001000, 20), 2),
        (Prefix::new(0x20000000, 8), 3),
        (Prefix::new(0x40000000, 8), 4),
    ]);
    assert_eq!(map.locate(0x00000123), Some((0x00000123, &1)));
    assert_eq!(map.locate(0x00001000), Some((0x00000000, &2)));
    assert_eq!(map.locate(0x00001123), Some((0x00000123, &2)));
    assert_eq!(map.locate(0x00003123), None);
    assert_eq!(map.locate(0x10003123), None);
    assert_eq!(map.locate(0x20003123), Some((0x00003123, &3)));
    assert_eq!(map.locate(0x30003123), None);
}

#[test]
fn locate_mut_map() {
    let mut map = PrefixMap::from(vec![
        (Prefix::new(0x00000000, 20), 1),
        (Prefix::new(0x00001000, 20), 2),
        (Prefix::new(0x20000000, 8), 3),
        (Prefix::new(0x40000000, 8), 4),
    ]);
    assert_eq!(map.locate_mut(0x00000123), Some((0x00000123, &mut 1)));
    assert_eq!(map.locate_mut(0x00001000), Some((0x00000000, &mut 2)));
    assert_eq!(map.locate_mut(0x00001123), Some((0x00000123, &mut 2)));
    assert_eq!(map.locate_mut(0x00003123), None);
    assert_eq!(map.locate_mut(0x10003123), None);
    assert_eq!(map.locate_mut(0x20003123), Some((0x00003123, &mut 3)));
    assert_eq!(map.locate_mut(0x30003123), None);
}

#[test]
fn locate_mut_changes_the_entry() {
    let mut map = PrefixMap::from(vec![(Prefix::new(0x20000000, 8), 3), (Prefix::new(0x20000000, 16), 5)]);
    if let Some((_, v)) = map.locate_mut(0x20000010) {
        *v = 9;
    }
    assert_eq!(map.locate(0x20000010), Some((0x10, &9)));
}

#[test]
fn locate_span_needs_the_whole_access() {
    let map = PrefixMap::from(vec![(Prefix::new(0x00001000, 20), 1), (Prefix::new(0x00000000, 16), 2)]);
    // the last byte of the first window: a long access spills over
    assert_eq!(map.locate_span(0x00001fff, 1), Some((0xfff, 0)));
    assert_eq!(map.locate_span(0x00001ffe, 4), Some((0x1ffe, 1)));
    assert_eq!(map.locate_span(0xfffffffe, 4), None);
}
