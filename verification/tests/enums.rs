use ffbeast_wheel_api::enums::{field_type_for, FieldType, SettingField};
use ffbeast_wheel_api::{PinMode, ReportData, ReportType};

#[test]
fn motion_range_is_u16() {
    assert_eq!(field_type_for(SettingField::MotionRange), FieldType::Uint16);
}

#[test]
fn constant_direction_is_i8() {
    assert_eq!(
        field_type_for(SettingField::DirectXConstantDirection),
        FieldType::Int8
    );
}

#[test]
fn encoder_cpr_is_u16() {
    assert_eq!(field_type_for(SettingField::EncoderCPR), FieldType::Uint16);
}

#[test]
fn total_effect_strength_is_u8() {
    assert_eq!(
        field_type_for(SettingField::TotalEffectStrength),
        FieldType::Uint8
    );
}

#[test]
fn encoder_direction_is_i8() {
    assert_eq!(
        field_type_for(SettingField::EncoderDirection),
        FieldType::Int8
    );
}

#[test]
fn adc_dead_zone_is_u16() {
    assert_eq!(
        field_type_for(SettingField::AdcMinDeadZone),
        FieldType::Uint16
    );
    assert_eq!(
        field_type_for(SettingField::AdcMaxDeadZone),
        FieldType::Uint16
    );
}

#[test]
fn wire_codes_match_device_protocol() {
    assert_eq!(ReportType::GenericInputOutput.code(), 0xA3);
    assert_eq!(ReportType::EffectSettingsFeature.code(), 0x22);
    assert_eq!(ReportType::AdcSettingsFeature.code(), 0xA2);
    assert_eq!(ReportData::DataSettingsFieldData.code(), 0x14);
    assert_eq!(ReportData::CommandResetCenter.code(), 0x04);
    assert_eq!(SettingField::MotionRange.code(), 5);
    assert_eq!(SettingField::IntegratedSpringStrength.code(), 43);
    assert_eq!(PinMode::Reboot.code(), 10);
}

#[test]
fn no_setting_field_uses_a_wide_wire_type() {
    let fields = [
        SettingField::DirectXConstantDirection,
        SettingField::MotionRange,
        SettingField::PGain,
        SettingField::IGain,
        SettingField::ButtonMode,
        SettingField::AdcMaxDeadZone,
        SettingField::ResetCenterOnZ0,
    ];
    for f in fields {
        let t = field_type_for(f);
        assert!(t == FieldType::Int8 || t == FieldType::Uint8 || t == FieldType::Uint16);
    }
}
