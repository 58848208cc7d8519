use ffbeast_wheel_api::protocol::buffers::{
    build_activation_buf, build_command_buf, build_float_setting_buf, build_setting_buf,
};
use ffbeast_wheel_api::protocol::reports::{
    feature_payload, parse_adc_settings, parse_device_state, parse_effect_settings,
    parse_firmware_license, parse_gpio_settings, parse_hardware_settings,
};
use ffbeast_wheel_api::{ReportData, SettingField, StructReader, WheelError};

fn too_small(r: Result<impl std::fmt::Debug, WheelError>) -> (usize, usize) {
    match r {
        Err(WheelError::BufferTooSmall { expected, got }) => (expected, got),
        other => panic!("unexpected {:?}", other),
    }
}

#[test]
fn effect_settings_decode_fields() {
    let payload = [
        0x84, 0x03, 0x0A, 0x00, 0x14, 0x00, 80, 30, 5, 60, 0xFF, 40, 50, 70,
    ];
    let s = parse_effect_settings(&payload).unwrap();
    assert_eq!(s.motion_range, 900);
    assert_eq!(s.static_dampening_strength, 10);
    assert_eq!(s.soft_stop_dampening_strength, 20);
    assert_eq!(s.total_effect_strength, 80);
    assert_eq!(s.integrated_spring_strength, 30);
    assert_eq!(s.soft_stop_range, 5);
    assert_eq!(s.soft_stop_strength, 60);
    assert_eq!(s.direct_x_constant_direction, -1);
    assert_eq!(s.direct_x_spring_strength, 40);
    assert_eq!(s.direct_x_constant_strength, 50);
    assert_eq!(s.direct_x_periodic_strength, 70);
}

#[test]
fn effect_settings_short_payload_names_first_missing_field() {
    // 3 bytes: the second u16 (bytes 2..4) is the first field that does not fit.
    assert_eq!(too_small(parse_effect_settings(&[1, 2, 3])), (4, 3));
    // 8 bytes: the u8 at offset 8 does not fit.
    assert_eq!(too_small(parse_effect_settings(&[0; 8])), (9, 8));
    assert_eq!(too_small(parse_effect_settings(&[])), (2, 0));
}

#[test]
fn hardware_settings_decode_fields() {
    let mut payload = [0u8; 17];
    payload[0] = 0x00;
    payload[1] = 0x10; // encoder_cpr = 4096
    payload[2] = 0xE8;
    payload[3] = 0x03; // integral_gain = 1000
    payload[4] = 7;
    payload[14] = 0xFF;
    payload[15] = 0x01;
    payload[16] = 4;
    let h = parse_hardware_settings(&payload).unwrap();
    assert_eq!(h.encoder_cpr, 4096);
    assert_eq!(h.integral_gain, 1000);
    assert_eq!(h.proportional_gain, 7);
    assert_eq!(h.encoder_direction, -1);
    assert_eq!(h.force_direction, 1);
    assert_eq!(h.pole_pairs, 4);
    assert_eq!(too_small(parse_hardware_settings(&payload[..16])), (17, 16));
}

#[test]
fn gpio_settings_decode_fields() {
    let mut payload = [0u8; 47];
    for (i, b) in payload.iter_mut().enumerate() {
        *b = i as u8;
    }
    let g = parse_gpio_settings(&payload).unwrap();
    assert_eq!(g.extension_mode, 0);
    assert_eq!(g.pin_mode, [1, 2, 3, 4, 5, 6, 7, 8, 9, 10]);
    assert_eq!(g.button_mode[0], 11);
    assert_eq!(g.button_mode[31], 42);
    assert_eq!(g.spi_mode, 43);
    assert_eq!(g.spi_latch_mode, 44);
    assert_eq!(g.spi_latch_delay, 45);
    assert_eq!(g.spi_clk_pulse_length, 46);
    assert_eq!(too_small(parse_gpio_settings(&payload[..20])), (21, 20));
}

#[test]
fn adc_settings_decode_fields() {
    let payload = [
        1, 0, 2, 0, 3, 0, 0xFF, 0x0F, 0xFE, 0x0F, 0xFD, 0x0F, 10, 11, 12, 20, 21, 22, 90, 91, 92,
        0, 1, 0,
    ];
    let a = parse_adc_settings(&payload).unwrap();
    assert_eq!(a.r_axis_min, [1, 2, 3]);
    assert_eq!(a.r_axis_max, [0x0FFF, 0x0FFE, 0x0FFD]);
    assert_eq!(a.r_axis_smoothing, [10, 11, 12]);
    assert_eq!(a.r_axis_to_button_low, [20, 21, 22]);
    assert_eq!(a.r_axis_to_button_high, [90, 91, 92]);
    assert_eq!(a.r_axis_invert, [0, 1, 0]);
    assert_eq!(too_small(parse_adc_settings(&payload[..5])), (6, 5));
    assert_eq!(too_small(parse_adc_settings(&payload[..13])), (14, 13));
}

#[test]
fn firmware_license_decode_fields() {
    let mut payload = [0u8; 29];
    payload[0] = 0;
    payload[1] = 24;
    payload[2] = 3;
    payload[3] = 7;
    payload[4..8].copy_from_slice(&0xAABB_CCDDu32.to_le_bytes());
    payload[8..12].copy_from_slice(&0x1122_3344u32.to_le_bytes());
    payload[12..16].copy_from_slice(&0xDEAD_BEEFu32.to_le_bytes());
    payload[16..20].copy_from_slice(&1u32.to_le_bytes());
    payload[20..24].copy_from_slice(&2u32.to_le_bytes());
    payload[24..28].copy_from_slice(&3u32.to_le_bytes());
    payload[28] = 1;
    let l = parse_firmware_license(&payload).unwrap();
    assert_eq!(l.firmware_version.major, 24);
    assert_eq!(l.firmware_version.minor, 3);
    assert_eq!(l.firmware_version.patch, 7);
    assert_eq!(l.serial_key, [0xAABB_CCDD, 0x1122_3344, 0xDEAD_BEEF]);
    assert_eq!(l.device_id, [1, 2, 3]);
    assert_eq!(l.is_registered, 1);
    assert_eq!(too_small(parse_firmware_license(&payload[..10])), (12, 10));
}

#[test]
fn device_state_decode_fields() {
    let payload = [1, 24, 3, 7, 1, 0x10, 0x27, 0xF0, 0xD8];
    let s = parse_device_state(&payload).unwrap();
    assert_eq!(s.firmware_version.release_type, 1);
    assert_eq!(s.is_registered, 1);
    assert_eq!(s.position, 10_000);
    assert_eq!(s.torque, -10_000);
    assert_eq!(too_small(parse_device_state(&payload[..6])), (7, 6));
}

#[test]
fn feature_payload_strips_report_id() {
    let report = [0x22, 1, 2, 3, 4, 5];
    assert_eq!(feature_payload(&report, 4).unwrap(), vec![1, 2, 3]);
    assert_eq!(too_small(feature_payload(&report, 1)), (2, 1));
    assert_eq!(too_small(feature_payload(&report, 0)), (2, 0));
}

#[test]
fn setting_report_reads_back_through_struct_reader() {
    let buf = build_setting_buf(SettingField::MotionRange, 3, 1_080);
    let mut r = StructReader::new(&buf);
    assert_eq!(r.u8().unwrap(), 0xA3);
    assert_eq!(r.u8().unwrap(), 0x14);
    assert_eq!(r.u8().unwrap(), 5);
    assert_eq!(r.u8().unwrap(), 3);
    assert_eq!(r.u16().unwrap(), 1_080);
    // Out-of-range values saturate to the field's range.
    let buf = build_setting_buf(SettingField::MotionRange, 0, 70_000);
    assert_eq!(u16::from_le_bytes([buf[4], buf[5]]), 65_535);
    let buf = build_setting_buf(SettingField::EncoderDirection, 0, -500);
    assert_eq!(buf[4] as i8, -128);
    let buf = build_setting_buf(SettingField::EncoderDirection, 0, 500);
    assert_eq!(buf[4] as i8, 127);
}

#[test]
fn float_setting_report_carries_bits() {
    let buf = build_float_setting_buf(SettingField::PGain, 1, 1.5f32.to_bits());
    assert_eq!(buf[0], 0xA3);
    assert_eq!(buf[1], 0x14);
    assert_eq!(buf[2], 25);
    assert_eq!(buf[3], 1);
    assert_eq!(f32::from_le_bytes([buf[4], buf[5], buf[6], buf[7]]), 1.5);
    assert!(buf[8..].iter().all(|&b| b == 0));
}

#[test]
fn command_report_layout() {
    let buf = build_command_buf(ReportData::CommandSaveSettings);
    assert_eq!(buf.len(), 65);
    assert_eq!(buf[0], 0xA3);
    assert_eq!(buf[1], 0x02);
    assert!(buf[2..].iter().all(|&b| b == 0));
}

#[test]
fn activation_report_layout() {
    let buf = build_activation_buf([0xAABB_CCDD, 0x1122_3344, 0xDEAD_BEEF]);
    assert_eq!(buf[0], 0xA3);
    assert_eq!(buf[1], 0x13);
    assert_eq!(buf[2..6], [0xDD, 0xCC, 0xBB, 0xAA]);
    assert_eq!(buf[6..10], [0x44, 0x33, 0x22, 0x11]);
    assert_eq!(buf[10..14], [0xEF, 0xBE, 0xAD, 0xDE]);
    assert!(buf[14..].iter().all(|&b| b == 0));
}
