use marmelade::serialization::{pad_to_wordlen, ReadError, SerialRead, SerialReadStorage};

#[test]
fn cdt_pad_to_wordlen_2() {
    assert_eq!(0, pad_to_wordlen(0, 2));
    assert_eq!(2, pad_to_wordlen(1, 2));
    assert_eq!(2, pad_to_wordlen(2, 2));
    assert_eq!(4, pad_to_wordlen(3, 2));
    assert_eq!(4, pad_to_wordlen(4, 2));
    assert_eq!(6, pad_to_wordlen(5, 2));
    assert_eq!(6, pad_to_wordlen(6, 2));
    assert_eq!(8, pad_to_wordlen(7, 2));
    assert_eq!(8, pad_to_wordlen(8, 2));
}

#[test]
fn cdt_pad_to_wordlen_4() {
    assert_eq!(0, pad_to_wordlen(0, 4));
    assert_eq!(4, pad_to_wordlen(1, 4));
    assert_eq!(4, pad_to_wordlen(2, 4));
    assert_eq!(4, pad_to_wordlen(3, 4));
    assert_eq!(4, pad_to_wordlen(4, 4));
    assert_eq!(8, pad_to_wordlen(5, 4));
    assert_eq!(8, pad_to_wordlen(6, 4));
    assert_eq!(8, pad_to_wordlen(7, 4));
    assert_eq!(8, pad_to_wordlen(8, 4));
}

#[test]
fn mod_pad_to_wordlen_2() {
    assert_eq!(0, pad_to_wordlen(0, 2));
    assert_eq!(2, pad_to_wordlen(1, 2));
    assert_eq!(2, pad_to_wordlen(2, 2));
    assert_eq!(4, pad_to_wordlen(3, 2));
    assert_eq!(4, pad_to_wordlen(4, 2));
    assert_eq!(6, pad_to_wordlen(5, 2));
    assert_eq!(6, pad_to_wordlen(6, 2));
    assert_eq!(8, pad_to_wordlen(7, 2));
    assert_eq!(8, pad_to_wordlen(8, 2));
}

#[test]
fn mod_pad_to_wordlen_4() {
    assert_eq!(0, pad_to_wordlen(0, 4));
    assert_eq!(4, pad_to_wordlen(1, 4));
    assert_eq!(4, pad_to_wordlen(2, 4));
    assert_eq!(4, pad_to_wordlen(3, 4));
    assert_eq!(4, pad_to_wordlen(4, 4));
    assert_eq!(8, pad_to_wordlen(5, 4));
    assert_eq!(8, pad_to_wordlen(6, 4));
    assert_eq!(8, pad_to_wordlen(7, 4));
    assert_eq!(8, pad_to_wordlen(8, 4));
}

#[test]
fn serialread_pad_to_wordlen_2() {
    assert_eq!(0, pad_to_wordlen(0, 2));
    assert_eq!(2, pad_to_wordlen(1, 2));
    assert_eq!(2, pad_to_wordlen(2, 2));
    assert_eq!(4, pad_to_wordlen(3, 2));
    assert_eq!(4, pad_to_wordlen(4, 2));
    assert_eq!(6, pad_to_wordlen(5, 2));
    assert_eq!(6, pad_to_wordlen(6, 2));
    assert_eq!(8, pad_to_wordlen(7, 2));
    assert_eq!(8, pad_to_wordlen(8, 2));
}

#[test]
fn serialread_pad_to_wordlen_4() {
    assert_eq!(0, pad_to_wordlen(0, 4));
    assert_eq!(4, pad_to_wordlen(1, 4));
    assert_eq!(4, pad_to_wordlen(2, 4));
    assert_eq!(4, pad_to_wordlen(3, 4));
    assert_eq!(4, pad_to_wordlen(4, 4));
    assert_eq!(8, pad_to_wordlen(5, 4));
    assert_eq!(8, pad_to_wordlen(6, 4));
    assert_eq!(8, pad_to_wordlen(7, 4));
    assert_eq!(8, pad_to_wordlen(8, 4));
}

#[derive(PartialEq, Debug)]
struct TestStruct {
    a: u8,
    b: u16,
    c: [u16; 2],
}

impl SerialRead for TestStruct {
    fn read(rdr: &mut SerialReadStorage) -> Result<TestStruct, ReadError> {
        let a = u8::read(rdr)?;
        let b = u16::read(rdr)?;
        let c0 = u16::read(rdr)?;
        let c1 = u16::read(rdr)?;
        Ok(TestStruct { a, b, c: [c0, c1] })
    }
}

#[derive(PartialEq, Debug)]
struct TestSuperStruct {
    a: TestStruct,
    b: TestStruct,
}

impl SerialRead for TestSuperStruct {
    fn read(rdr: &mut SerialReadStorage) -> Result<TestSuperStruct, ReadError> {
        let a = TestStruct::read(rdr)?;
        let b = TestStruct::read(rdr)?;
        Ok(TestSuperStruct { a, b })
    }
}

#[derive(PartialEq, Debug)]
struct TestSized {
    a: u8,
    b: u8,
    c: u8,
}

impl SerialRead for TestSized {
    fn read(rdr: &mut SerialReadStorage) -> Result<TestSized, ReadError> {
        let a = u8::read(rdr)?;
        rdr.length_start(3);
        let b = u8::read(rdr)?;
        rdr.length_end();
        let c = u8::read(rdr)?;
        Ok(TestSized { a, b, c })
    }
}

#[test]
fn mod_read_struct() {
    let mut rdr = SerialReadStorage::from(vec![1, 2, 3, 4, 5, 6, 7]);
    let actual: TestStruct = SerialRead::read(&mut rdr).unwrap();
    assert_eq!(actual, TestStruct { a: 0x01, b: 0x0203, c: [0x0405, 0x0607] });
}

#[test]
fn mod_read_seq() {
    let mut rdr = SerialReadStorage::from(vec![1, 2, 3, 4, 5, 6, 7, 2, 2, 3, 4, 5, 6, 7]);

    let actual: TestStruct = SerialRead::read(&mut rdr).unwrap();
    assert_eq!(actual, TestStruct { a: 0x01, b: 0x0203, c: [0x0405, 0x0607] });

    let actual: TestStruct = SerialRead::read(&mut rdr).unwrap();
    assert_eq!(actual, TestStruct { a: 0x02, b: 0x0203, c: [0x0405, 0x0607] });
}

#[test]
fn mod_read_recursive() {
    let mut rdr = SerialReadStorage::from(vec![1, 2, 3, 4, 5, 6, 7, 2, 2, 3, 4, 5, 6, 7]);

    let actual: TestSuperStruct = SerialRead::read(&mut rdr).unwrap();
    assert_eq!(
        actual,
        TestSuperStruct {
            a: TestStruct { a: 0x01, b: 0x0203, c: [0x0405, 0x0607] },
            b: TestStruct { a: 0x02, b: 0x0203, c: [0x0405, 0x0607] },
        }
    );
}

#[test]
fn mod_read_sized() {
    let mut rdr = SerialReadStorage::from(vec![1, 2, 3, 4, 5]);
    let actual: TestSized = SerialRead::read(&mut rdr).unwrap();
    assert_eq!(actual, TestSized { a: 1, b: 2, c: 5 });
}

#[test]
fn serialread_read_struct() {
    let mut rdr = SerialReadStorage::from(vec![1, 2, 3, 4, 5, 6, 7]);
    let actual: TestStruct = SerialRead::read(&mut rdr).unwrap();
    assert_eq!(actual, TestStruct { a: 0x01, b: 0x0203, c: [0x0405, 0x0607] });
}

#[test]
fn serialread_read_seq() {
    let mut rdr = SerialReadStorage::from(vec![1, 2, 3, 4, 5, 6, 7, 2, 2, 3, 4, 5, 6, 7]);

    let actual: TestStruct = SerialRead::read(&mut rdr).unwrap();
    assert_eq!(actual, TestStruct { a: 0x01, b: 0x0203, c: [0x0405, 0x0607] });

    let actual: TestStruct = SerialRead::read(&mut rdr).unwrap();
    assert_eq!(actual, TestStruct { a: 0x02, b: 0x0203, c: [0x0405, 0x0607] });
}

#[test]
fn serialread_read_recursive() {
    let mut rdr = SerialReadStorage::from(vec![1, 2, 3, 4, 5, 6, 7, 2, 2, 3, 4, 5, 6, 7]);

    let actual: TestSuperStruct = SerialRead::read(&mut rdr).unwrap();
    assert_eq!(
        actual,
        TestSuperStruct {
            a: TestStruct { a: 0x01, b: 0x0203, c: [0x0405, 0x0607] },
            b: TestStruct { a: 0x02, b: 0x0203, c: [0x0405, 0x0607] },
        }
    );
}

#[test]
fn serialread_read_sized() {
    let mut rdr = SerialReadStorage::from(vec![1, 2, 3, 4, 5]);
    let actual: TestSized = SerialRead::read(&mut rdr).unwrap();
    assert_eq!(actual, TestSized { a: 1, b: 2, c: 5 });
}

#[test]
fn read_past_end_is_an_error() {
    let mut rdr = SerialReadStorage::from(vec![1, 2, 3]);
    assert_eq!(rdr.read_u32(), Err(ReadError::UnexpectedEof));
    assert_eq!(rdr.pos(), 0);
    assert_eq!(rdr.read_u24(), Ok(0x010203));
    assert_eq!(rdr.read_u8(), Err(ReadError::UnexpectedEof));
}

#[test]
fn signed_reads_and_alignment() {
    let mut rdr = SerialReadStorage::from(vec![0xff, 0xfe, 0xff, 0xff, 0xff, 0xfd, 0x80]);
    assert_eq!(rdr.read_i16(), Ok(-2));
    assert_eq!(rdr.read_i32(), Ok(-3));
    assert_eq!(rdr.read_i8(), Ok(-128));
    rdr.seek(1);
    rdr.align(4);
    assert_eq!(rdr.pos(), 4);
    rdr.pad(-2);
    assert_eq!(rdr.pos(), 2);
}

#[test]
fn sub_reader_and_extend() {
    let rdr = SerialReadStorage::from(vec![1, 2, 3, 4, 5]);
    let mut sub = rdr.sub_reader(1, 3);
    assert_eq!(sub.size(), 3);
    sub.extend(SerialReadStorage::from(vec![9]));
    assert_eq!(sub.to_vec(), vec![2, 3, 4, 9]);
}
