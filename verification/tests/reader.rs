use ffbeast_wheel_api::{StructReader, WheelError};

#[test]
fn struct_reader_u8() {
    let mut r = StructReader::new(&[0xAB]);
    assert_eq!(r.u8().unwrap(), 0xAB);
}

#[test]
fn struct_reader_i8_signed() {
    let mut r = StructReader::new(&[0xFF]); // -1 as i8
    assert_eq!(r.i8().unwrap(), -1_i8);
}

#[test]
fn struct_reader_u16_little_endian() {
    let mut r = StructReader::new(&[0x34, 0x12]); // 0x1234 in LE
    assert_eq!(r.u16().unwrap(), 0x1234);
}

#[test]
fn struct_reader_i16_little_endian() {
    let mut r = StructReader::new(&[0xFF, 0xFF]); // -1 as i16 LE
    assert_eq!(r.i16().unwrap(), -1_i16);
}

#[test]
fn struct_reader_u32_little_endian() {
    let mut r = StructReader::new(&[0x78, 0x56, 0x34, 0x12]); // 0x12345678 LE
    assert_eq!(r.u32().unwrap(), 0x1234_5678);
}

#[test]
fn struct_reader_advances_offset() {
    let mut r = StructReader::new(&[0x01, 0x02, 0x03]);
    assert_eq!(r.u8().unwrap(), 0x01);
    assert_eq!(r.u8().unwrap(), 0x02);
    assert_eq!(r.u8().unwrap(), 0x03);
}

#[test]
fn struct_reader_sequential_mixed_types() {
    // 1 u8 + 1 u16 LE = [0x01, 0x34, 0x12]
    let mut r = StructReader::new(&[0x01, 0x34, 0x12]);
    assert_eq!(r.u8().unwrap(), 0x01);
    assert_eq!(r.u16().unwrap(), 0x1234);
}

#[test]
fn struct_reader_bounds_check_u8_empty() {
    let mut r = StructReader::new(&[]);
    assert!(matches!(r.u8(), Err(WheelError::BufferTooSmall { .. })));
}

#[test]
fn struct_reader_bounds_check_u16_one_byte() {
    let mut r = StructReader::new(&[0x01]); // only 1 byte available
    assert!(matches!(r.u16(), Err(WheelError::BufferTooSmall { .. })));
}

#[test]
fn struct_reader_bounds_check_after_partial_read() {
    let mut r = StructReader::new(&[0x01, 0x02]);
    r.u8().unwrap(); // consume 1 byte
    assert!(r.u16().is_err()); // only 1 left, need 2
}

#[test]
fn struct_reader_shortfall_reports_expected_and_got() {
    let mut r = StructReader::new(&[0x01, 0x02, 0x03]);
    r.u16().unwrap();
    match r.u32() {
        Err(WheelError::BufferTooSmall { expected, got }) => {
            assert_eq!(expected, 6);
            assert_eq!(got, 3);
        }
        other => panic!("unexpected {:?}", other),
    }
    // A failed read leaves the reader where it was.
    assert_eq!(r.u8().unwrap(), 0x03);
}

#[test]
fn struct_reader_i16_and_i8_sign() {
    let mut r = StructReader::new(&[0x00, 0x80, 0x7F]);
    assert_eq!(r.i16().unwrap(), i16::MIN);
    assert_eq!(r.i8().unwrap(), 127);
}
