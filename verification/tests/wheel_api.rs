use ffbeast_wheel_api::protocol::buffers::{build_direct_control_buf, build_setting_buf};
use ffbeast_wheel_api::{DirectControl, ReportData, ReportType, SettingField};
use ffbeast_wheel_api::protocol::license::parse_license_key;

#[test]
fn wheel_api_setting_buf_header_bytes() {
    let buf = build_setting_buf(SettingField::MotionRange, 0, 900);
    assert_eq!(buf[0], ReportType::GenericInputOutput.code());
    assert_eq!(buf[1], ReportData::DataSettingsFieldData.code());
    assert_eq!(buf[2], SettingField::MotionRange.code());
    assert_eq!(buf[3], 0);
}

#[test]
fn wheel_api_setting_buf_u16_value_little_endian() {
    let buf = build_setting_buf(SettingField::MotionRange, 0, 900);
    assert_eq!(u16::from_le_bytes([buf[4], buf[5]]), 900);
}

#[test]
fn wheel_api_setting_buf_i8_negative_value() {
    let buf = build_setting_buf(SettingField::DirectXConstantDirection, 0, -1);
    assert_eq!(buf[4] as i8, -1_i8);
}

#[test]
fn wheel_api_setting_buf_u8_clamps_negative_to_zero() {
    let buf = build_setting_buf(SettingField::TotalEffectStrength, 0, -5);
    assert_eq!(buf[4], 0);
}

#[test]
fn wheel_api_setting_buf_u8_clamps_overflow_to_255() {
    let buf = build_setting_buf(SettingField::TotalEffectStrength, 0, 999);
    assert_eq!(buf[4], 255);
}

#[test]
fn wheel_api_setting_buf_index_is_stored() {
    let buf = build_setting_buf(SettingField::PinMode, 7, 1);
    assert_eq!(buf[3], 7);
}

#[test]
fn wheel_api_setting_buf_tail_is_zero_padded() {
    let buf = build_setting_buf(SettingField::TotalEffectStrength, 0, 42);
    assert!(buf[5..].iter().all(|&b| b == 0));
}

#[test]
fn wheel_api_direct_control_buf_header() {
    let buf = build_direct_control_buf(&DirectControl::default());
    assert_eq!(buf[0], ReportType::GenericInputOutput.code());
    assert_eq!(buf[1], ReportData::DataOverrideData.code());
}

#[test]
fn wheel_api_direct_control_buf_forces_little_endian() {
    let ctrl = DirectControl {
        spring_force: 1_000,
        constant_force: -500,
        periodic_force: 0,
        force_drop: 25,
    };
    let buf = build_direct_control_buf(&ctrl);
    assert_eq!(i16::from_le_bytes([buf[2], buf[3]]), 1_000);
    assert_eq!(i16::from_le_bytes([buf[4], buf[5]]), -500);
    assert_eq!(i16::from_le_bytes([buf[6], buf[7]]), 0);
    assert_eq!(buf[8], 25);
}

#[test]
fn wheel_api_direct_control_buf_clamps_forces() {
    let ctrl = DirectControl {
        spring_force: 30_000,
        constant_force: -30_000,
        periodic_force: 0,
        force_drop: 200,
    };
    let buf = build_direct_control_buf(&ctrl);
    assert_eq!(i16::from_le_bytes([buf[2], buf[3]]), 10_000);
    assert_eq!(i16::from_le_bytes([buf[4], buf[5]]), -10_000);
    assert_eq!(buf[8], 100);
}

#[test]
fn wheel_api_license_valid_parses_three_u32s() {
    let key = parse_license_key("AABBCCDD-11223344-DEADBEEF").unwrap();
    assert_eq!(key[0], 0xAABB_CCDD);
    assert_eq!(key[1], 0x1122_3344);
    assert_eq!(key[2], 0xDEAD_BEEF);
}

#[test]
fn wheel_api_license_lowercase_hex_accepted() {
    let key = parse_license_key("aabbccdd-11223344-deadbeef").unwrap();
    assert_eq!(key[0], 0xAABB_CCDD);
}

#[test]
fn wheel_api_license_with_leading_trailing_whitespace_accepted() {
    assert!(parse_license_key("  AABBCCDD-11223344-DEADBEEF  ").is_ok());
}

#[test]
fn wheel_api_license_wrong_segment_count_is_err() {
    assert!(parse_license_key("AABBCCDD-11223344").is_err());
    assert!(parse_license_key("AABBCCDD-11223344-DEADBEEF-00000000").is_err());
}

#[test]
fn wheel_api_license_short_segment_is_err() {
    assert!(parse_license_key("AABB-11223344-DEADBEEF").is_err());
}

#[test]
fn wheel_api_license_non_hex_chars_are_err() {
    assert!(parse_license_key("GGHHIIJJ-11223344-DEADBEEF").is_err());
}
