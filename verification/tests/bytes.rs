use ffbeast_wheel_api::protocol::bytes::{
    byte_to_i8, clamp_i16, clamp_i64, i16_to_le, i32_to_le, i8_to_byte, read_le_i16, read_le_u16,
    read_le_u32, u16_to_le, u32_to_le,
};

#[test]
fn integer_codecs_round_trip() {
    for v in [0u16, 1, 0x1234, 0xFFFF] {
        assert_eq!(read_le_u16(&u16_to_le(v), 0), v);
        assert_eq!(u16_to_le(v), v.to_le_bytes());
    }
    for v in [0i16, -1, 10_000, -10_000, i16::MIN, i16::MAX] {
        assert_eq!(read_le_i16(&i16_to_le(v), 0), v);
        assert_eq!(i16_to_le(v), v.to_le_bytes());
    }
    for v in [0u32, 0xDEAD_BEEF, u32::MAX] {
        assert_eq!(read_le_u32(&u32_to_le(v), 0), v);
        assert_eq!(u32_to_le(v), v.to_le_bytes());
    }
    for v in [0i32, -1, i32::MIN, i32::MAX] {
        assert_eq!(i32_to_le(v), v.to_le_bytes());
    }
    for v in [0i8, -1, -128, 127] {
        assert_eq!(byte_to_i8(i8_to_byte(v)), v);
        assert_eq!(i8_to_byte(v), v as u8);
    }
}

#[test]
fn clamps_saturate() {
    assert_eq!(clamp_i64(-5, 0, 255), 0);
    assert_eq!(clamp_i64(999, 0, 255), 255);
    assert_eq!(clamp_i64(42, 0, 255), 42);
    assert_eq!(clamp_i16(30_000, -10_000, 10_000), 10_000);
    assert_eq!(clamp_i16(-30_000, -10_000, 10_000), -10_000);
    assert_eq!(clamp_i16(123, -10_000, 10_000), 123);
}
