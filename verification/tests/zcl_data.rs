use zigbee::bytes::ParseError;
use zigbee::common::ExtendedAddress;
use zigbee::zcl::types::{ZclData, ZclDate, ZclTime};

fn write(d: &ZclData) -> Vec<u8> {
    let mut out = Vec::new();
    d.serialize(&mut out, 0).unwrap();
    out
}

fn read(bytes: &[u8]) -> (ZclData, usize) {
    ZclData::parse(bytes, 0, 0).unwrap()
}

fn reads_back(d: ZclData) {
    let bytes = write(&d);
    let (back, n) = read(&bytes);
    assert_eq!(n, bytes.len());
    assert_eq!(back, d);
}

#[test]
fn numbers_are_written_little_endian() {
    assert_eq!(write(&ZclData::UInt16(0x1234)), vec![0x21, 0x34, 0x12]);
    assert_eq!(write(&ZclData::Int8(-2)), vec![0x28, 0xfe]);
    assert_eq!(write(&ZclData::UInt24(0x0a0b0c)), vec![0x22, 0x0c, 0x0b, 0x0a]);
    assert_eq!(write(&ZclData::Bool(true)), vec![0x10, 0x01]);
    assert_eq!(write(&ZclData::Null), vec![0x00]);
}

#[test]
fn values_read_back() {
    reads_back(ZclData::UInt8(7));
    reads_back(ZclData::Int16(-300));
    reads_back(ZclData::Int32(i32::MIN));
    reads_back(ZclData::Int64(-1));
    reads_back(ZclData::Data56(0x00ff_eedd_ccbb_aa99));
    reads_back(ZclData::Enum16(0xbeef));
    reads_back(ZclData::Double(0x4009_21fb_5444_2d18));
    reads_back(ZclData::OctetString(vec![1, 2, 3]));
    reads_back(ZclData::String("zigbee".to_string()));
    reads_back(ZclData::LongOctetString(vec![9; 300]));
    reads_back(ZclData::Time(ZclTime { hour: Some(13), minute: Some(5), second: None, hundredth: Some(99) }));
    reads_back(ZclData::Date(ZclDate { year: Some(124), month: Some(2), day: Some(29), weekday: Some(4) }));
    reads_back(ZclData::SecurityKey([0xa5; 16]));
}

#[test]
fn nested_lists_read_back() {
    let inner = ZclData::Structure(2, vec![ZclData::UInt8(1), ZclData::String("a".to_string())]);
    let outer = ZclData::Array(3, vec![inner, ZclData::Bag(0, vec![]), ZclData::Int24(0x7fffff)]);
    reads_back(outer);
}

#[test]
fn values_outside_what_reads_back() {
    // A long character string reads back as a short one.
    let bytes = write(&ZclData::LongString("ab".to_string()));
    assert_eq!(bytes, vec![0x44, 0x02, 0x00, b'a', b'b']);
    assert_eq!(read(&bytes), (ZclData::String("ab".to_string()), 5));
    // A negative 24-bit integer reads back without its sign.
    let bytes = write(&ZclData::Int24(-1));
    assert_eq!(read(&bytes), (ZclData::Int24(0x00ff_ffff), 4));
    // An IEEE address is read with the length of a 4-byte value.
    let bytes = write(&ZclData::IeeeAddress(ExtendedAddress(0x0102_0304_0506_0708)));
    assert_eq!(bytes.len(), 9);
    assert_eq!(read(&bytes), (ZclData::IeeeAddress(ExtendedAddress(0x0102_0304_0506_0708)), 5));
}

#[test]
fn truncated_and_unknown_values_are_refused() {
    assert_eq!(ZclData::parse(&[0x21, 0x34], 0, 0), Err(ParseError::Incomplete));
    assert_eq!(ZclData::parse(&[0x42, 0x05, b'a'], 0, 0), Err(ParseError::Incomplete));
    assert_eq!(ZclData::parse(&[0x42, 0x01, 0xff], 0, 0), Err(ParseError::BadInput));
    assert_eq!(ZclData::parse(&[0x07], 0, 0), Err(ParseError::BadInput));
}

#[test]
fn lists_deeper_than_fifteen_are_refused() {
    let mut d = ZclData::UInt8(0);
    for _ in 0..16 {
        d = ZclData::Array(1, vec![d]);
    }
    let mut out = Vec::new();
    assert_eq!(d.serialize(&mut out, 0), Err(ParseError::BadInput));
}

#[test]
fn dates_follow_the_calendar() {
    assert!(ZclDate::parse(&[1, 2, 29, 0xff], 0).is_err());
    assert_eq!(
        ZclDate::parse(&[4, 2, 29, 0xff], 0),
        Ok((ZclDate { year: Some(4), month: Some(2), day: Some(29), weekday: None }, 4))
    );
    assert!(ZclDate::parse(&[4, 2, 30, 0xff], 0).is_err());
    assert!(ZclDate::parse(&[4, 4, 31, 0xff], 0).is_err());
    assert!(ZclDate::parse(&[0, 2, 29, 0xff], 0).is_err());
    assert!(ZclDate::parse(&[0xff, 2, 29, 0xff], 0).is_ok());
    assert!(ZclDate::parse(&[4, 1, 0xff, 0xff], 0).is_ok());
    assert!(ZclDate::parse(&[4, 0xff, 0xff, 0xff], 0).is_ok());
}

#[test]
fn an_unspecified_day_is_refused_in_the_short_months() {
    for month in [2u8, 4, 6, 9, 11] {
        assert_eq!(ZclDate::parse(&[4, month, 0xff, 0xff], 0), Err(ParseError::BadInput));
    }
    assert!(ZclDate::parse(&[4, 3, 0xff, 0xff], 0).is_ok());
}

#[test]
fn values_are_written_into_a_fixed_buffer() {
    let mut buf = [0u8; 8];
    assert_eq!(ZclData::Int16(14).try_write(&mut buf, 0), Ok(3));
    assert_eq!(buf[..3], [0x29, 0x0e, 0x00]);
    assert_eq!(ZclData::String("hi".to_string()).try_write(&mut buf, 0), Ok(4));
    assert_eq!(buf[..4], [0x42, 0x02, 0x68, 0x69]);
    assert_eq!(ZclData::Null.try_write(&mut buf, 0), Ok(1));
    assert_eq!(buf[0], 0x00);
    assert_eq!(ZclData::Null.try_write(&mut buf, 16), Err(ParseError::BadInput));
    let mut small = [0u8; 2];
    assert_eq!(ZclData::UInt32(1).try_write(&mut small, 0), Err(ParseError::Incomplete));
    assert_eq!(small, [0, 0]);
}
