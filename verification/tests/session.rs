use ffbeast_wheel_api::protocol::buffers::build_setting_buf;
use ffbeast_wheel_api::protocol::license::parse_license_key;
use ffbeast_wheel_api::{EffectSettings, SettingField, WheelError, WheelSession};

fn state_report(registered: u8, position: i16, torque: i16) -> [u8; 65] {
    let mut buf = [0u8; 65];
    buf[0] = 0xA3;
    buf[1] = 0;
    buf[2] = 24;
    buf[3] = 12;
    buf[4] = 105;
    buf[5] = registered;
    buf[6..8].copy_from_slice(&position.to_le_bytes());
    buf[8..10].copy_from_slice(&torque.to_le_bytes());
    buf
}

#[test]
fn fresh_session_knows_nothing() {
    let s = WheelSession::new();
    assert!(s.last_state().is_none());
    assert!(s.cached_motion_range().is_none());
    assert!(s.firmware_version().is_none());
    assert!(s.firmware_release_type().is_none());
}

#[test]
fn input_report_is_decoded_and_remembered() {
    let mut s = WheelSession::new();
    let report = state_report(1, -2_500, 4_000);
    let state = s.accept_input_report(&report, 65).unwrap().unwrap();
    assert_eq!(state.position, -2_500);
    assert_eq!(state.torque, 4_000);
    assert_eq!(state.is_registered, 1);
    let last = s.last_state().unwrap();
    assert_eq!(last.position, -2_500);
    assert_eq!(s.firmware_version().unwrap(), "24.12.105");
    assert_eq!(s.firmware_release_type(), Some(0));
}

#[test]
fn foreign_or_empty_reports_are_ignored() {
    let mut s = WheelSession::new();
    let mut report = state_report(0, 1, 2);
    assert!(s.accept_input_report(&report, 0).unwrap().is_none());
    report[0] = 0x01;
    assert!(s.accept_input_report(&report, 65).unwrap().is_none());
    assert!(s.last_state().is_none());
}

#[test]
fn short_input_report_is_an_error_and_keeps_state() {
    let mut s = WheelSession::new();
    let report = state_report(0, 7, 8);
    s.accept_input_report(&report, 65).unwrap();
    match s.accept_input_report(&report[..6], 6) {
        Err(WheelError::BufferTooSmall { expected, got }) => {
            assert_eq!(expected, 7);
            assert_eq!(got, 5);
        }
        other => panic!("unexpected {:?}", other),
    }
    assert_eq!(s.last_state().unwrap().position, 7);
}

#[test]
fn motion_range_write_updates_cache_saturated() {
    let mut s = WheelSession::new();
    s.record_setting_write(SettingField::TotalEffectStrength, 50);
    assert!(s.cached_motion_range().is_none());
    s.record_setting_write(SettingField::MotionRange, 900);
    assert_eq!(s.cached_motion_range(), Some(900));
    s.record_setting_write(SettingField::MotionRange, 100_000);
    assert_eq!(s.cached_motion_range(), Some(65_535));
    s.record_setting_write(SettingField::MotionRange, -3);
    assert_eq!(s.cached_motion_range(), Some(0));
}

#[test]
fn effect_settings_set_motion_range() {
    let mut s = WheelSession::new();
    let e = EffectSettings {
        motion_range: 1_080,
        static_dampening_strength: 0,
        soft_stop_dampening_strength: 0,
        total_effect_strength: 0,
        integrated_spring_strength: 0,
        soft_stop_range: 0,
        soft_stop_strength: 0,
        direct_x_constant_direction: 1,
        direct_x_spring_strength: 0,
        direct_x_constant_strength: 0,
        direct_x_periodic_strength: 0,
    };
    s.adopt_effect_settings(&e);
    assert_eq!(s.cached_motion_range(), Some(1_080));
}

#[test]
fn activation_is_built_unless_registered() {
    let mut s = WheelSession::new();
    let buf = s.activation_buf("AABBCCDD-11223344-DEADBEEF").unwrap().unwrap();
    assert_eq!(buf[1], 0x13);
    assert_eq!(buf[2..6], [0xDD, 0xCC, 0xBB, 0xAA]);
    assert!(matches!(
        s.activation_buf("nope"),
        Err(WheelError::InvalidLicense(_))
    ));
    s.accept_input_report(&state_report(1, 0, 0), 65).unwrap();
    assert!(s.activation_buf("AABBCCDD-11223344-DEADBEEF").unwrap().is_none());
    // Once registered, nothing is sent, whatever the key.
    assert!(s.activation_buf("nope").unwrap().is_none());
}

#[test]
fn license_error_messages() {
    match parse_license_key("AABBCCDD-11223344") {
        Err(WheelError::InvalidLicense(m)) => assert_eq!(m, "expected 3 hyphen-separated segments"),
        other => panic!("unexpected {:?}", other),
    }
    match parse_license_key("AABBCCDD-1122334-DEADBEEF") {
        Err(WheelError::InvalidLicense(m)) => {
            assert_eq!(m, "segment 2 must be exactly 8 hex characters (got \"1122334\")")
        }
        other => panic!("unexpected {:?}", other),
    }
    match parse_license_key("AABBCCDD-11223344-DEADBEEZ") {
        Err(WheelError::InvalidLicense(m)) => {
            assert_eq!(m, "segment 3 must be exactly 8 hex characters (got \"DEADBEEZ\")")
        }
        other => panic!("unexpected {:?}", other),
    }
}

#[test]
fn license_trims_unicode_white_space_and_mixed_case() {
    let key = parse_license_key("\t\u{3000} aBcDeF01-00000000-FFFFFFFF \n").unwrap();
    assert_eq!(key, [0xABCD_EF01, 0, 0xFFFF_FFFF]);
    assert!(parse_license_key("").is_err());
    assert!(parse_license_key("AABBCCDD--11223344").is_err());
    assert!(parse_license_key("AABBCCDD-11223344-DEADBEE\u{e9}").is_err());
}

#[test]
fn remembered_range_matches_written_report() {
    for value in [-7i64, 0, 900, 65_535, 65_536, 1_000_000] {
        let mut s = WheelSession::new();
        let buf = build_setting_buf(SettingField::MotionRange, 0, value);
        s.record_setting_write(SettingField::MotionRange, value);
        assert_eq!(s.cached_motion_range(), Some(u16::from_le_bytes([buf[4], buf[5]])));
    }
}
