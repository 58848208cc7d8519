//! HID output report construction.
use vstd::prelude::*;

use crate::enums::{field_type_for, FieldType, ReportData, ReportType, SettingField};
use crate::enums::{lemma_field_types_are_narrow, spec_field_type_for};
use crate::protocol::bytes::{
    byte_as_i8, clamp, clamp_i16, clamp_i64, i16_le_bytes, i16_to_le, i32_le_bytes, i32_to_le,
    i8_as_byte, i8_to_byte, le_i16, le_u16, le_u32, lemma_i16_round_trip, lemma_i8_round_trip,
    lemma_u16_round_trip, lemma_u32_round_trip, u16_le_bytes, u16_to_le, u32_le_bytes, u32_to_le,
};
use crate::types::DirectControl;

verus! {

/// Length of an HID output report buffer: the report ID byte and `REPORT_SIZE` bytes of data.
pub const OUTPUT_REPORT_LEN: usize = 65;

/// A full output report that starts with `prefix` and is zero-padded to `OUTPUT_REPORT_LEN` bytes.
pub open spec fn padded_report(prefix: Seq<u8>) -> Seq<u8> {
    prefix + Seq::new((OUTPUT_REPORT_LEN - prefix.len()) as nat, |i: int| 0u8)
}

/// The bytes that carry `value` for a setting of wire type `ft`: the value saturated to
/// the type's range, in little-endian two's complement. No setting field has the
/// floating-point type (see `lemma_field_types_are_narrow`); floating-point settings
/// travel through [`build_float_setting_buf`], so that type carries no bytes here.
pub open spec fn setting_value_bytes(ft: FieldType, value: int) -> Seq<u8> {
    match ft {
        FieldType::Int8 => seq![i8_as_byte(clamp(value, -128, 127) as i8)],
        FieldType::Uint8 => seq![clamp(value, 0, 255) as u8],
        FieldType::Int16 => i16_le_bytes(clamp(value, -32768, 32767) as i16),
        FieldType::Uint16 => u16_le_bytes(clamp(value, 0, 65535) as u16),
        FieldType::Int32 => i32_le_bytes(clamp(value, -0x8000_0000, 0x7fff_ffff) as i32),
        FieldType::Uint32 => u32_le_bytes(clamp(value, 0, 0xffff_ffff) as u32),
        FieldType::Float32 => Seq::empty(),
    }
}

/// The report that writes `value` to the setting `field` at `index`.
pub open spec fn setting_report(field: SettingField, index: u8, value: int) -> Seq<u8> {
    padded_report(
        seq![
            ReportType::GenericInputOutput.spec_code(),
            ReportData::DataSettingsFieldData.spec_code(),
            field.spec_code(),
            index,
        ] + setting_value_bytes(field_type_for(field), value),
    )
}

/// The report that writes the 32-bit float with bit pattern `bits` to the setting `field` at `index`.
pub open spec fn float_setting_report(field: SettingField, index: u8, bits: u32) -> Seq<u8> {
    padded_report(
        seq![
            ReportType::GenericInputOutput.spec_code(),
            ReportData::DataSettingsFieldData.spec_code(),
            field.spec_code(),
            index,
        ] + u32_le_bytes(bits),
    )
}

/// The direct-control report for `control`: each force saturated to +-10 000 and the
/// force drop to at most 100.
pub open spec fn direct_control_report(control: DirectControl) -> Seq<u8> {
    padded_report(
        seq![
            ReportType::GenericInputOutput.spec_code(),
            ReportData::DataOverrideData.spec_code(),
        ] + i16_le_bytes(clamp(control.spring_force as int, -10000, 10000) as i16)
            + i16_le_bytes(clamp(control.constant_force as int, -10000, 10000) as i16)
            + i16_le_bytes(clamp(control.periodic_force as int, -10000, 10000) as i16) + seq![
            clamp(control.force_drop as int, 0, 100) as u8,
        ],
    )
}

/// The report that sends the zero-payload `command`.
pub open spec fn command_report(command: ReportData) -> Seq<u8> {
    padded_report(seq![ReportType::GenericInputOutput.spec_code(), command.spec_code()])
}

/// The report that sends the activation key `key`.
pub open spec fn activation_report(key: Seq<u32>) -> Seq<u8> {
    padded_report(
        seq![
            ReportType::GenericInputOutput.spec_code(),
            ReportData::DataFirmwareActivationData.spec_code(),
        ] + u32_le_bytes(key[0]) + u32_le_bytes(key[1]) + u32_le_bytes(key[2]),
    )
}

fn zeroed_report() -> (r: [u8; 65])
    ensures
        r@ == Seq::new(65, |i: int| 0u8),
{
    let r = [0u8; 65];
    proof {
        broadcast use vstd::array::group_array_axioms;

        assert(r@ =~= Seq::new(65, |i: int| 0u8));
    }
    r
}

/// Builds the 65-byte HID output buffer for a single setting-field write.
///
/// Buffer layout:
/// ```text
/// [0]    report ID        = 0xA3 (GenericInputOutput)
/// [1]    report data      = 0x14 (DataSettingsFieldData)
/// [2]    field identifier
/// [3]    field index
/// [4..]  value encoded as the field's native type (little-endian)
/// ```
pub fn build_setting_buf(field: SettingField, index: u8, value: i64) -> (r: [u8; 65])
    ensures
        r@ == setting_report(field, index, value as int),
{
    let mut buf = zeroed_report();
    buf[0] = ReportType::GenericInputOutput.code();
    buf[1] = ReportData::DataSettingsFieldData.code();
    buf[2] = field.code();
    buf[3] = index;
    let ghost head = seq![
        ReportType::GenericInputOutput.spec_code(),
        ReportData::DataSettingsFieldData.spec_code(),
        field.spec_code(),
        index,
    ];
    let ft = field_type_for(field);
    match ft {
        FieldType::Int8 => {
            buf[4] = i8_to_byte(clamp_i64(value, -128, 127) as i8);
        },
        FieldType::Uint8 => {
            buf[4] = clamp_i64(value, 0, 255) as u8;
        },
        FieldType::Int16 => {
            let b = i16_to_le(clamp_i64(value, -32768, 32767) as i16);
            buf[4] = b[0];
            buf[5] = b[1];
        },
        FieldType::Uint16 => {
            let b = u16_to_le(clamp_i64(value, 0, 65535) as u16);
            buf[4] = b[0];
            buf[5] = b[1];
        },
        FieldType::Int32 => {
            let b = i32_to_le(clamp_i64(value, -0x8000_0000, 0x7fff_ffff) as i32);
            buf[4] = b[0];
            buf[5] = b[1];
            buf[6] = b[2];
            buf[7] = b[3];
        },
        FieldType::Uint32 => {
            let b = u32_to_le(clamp_i64(value, 0, 0xffff_ffff) as u32);
            buf[4] = b[0];
            buf[5] = b[1];
            buf[6] = b[2];
            buf[7] = b[3];
        },
        FieldType::Float32 => {},
    }
    assert(buf@ =~= setting_report(field, index, value as int));
    buf
}

/// Builds the 65-byte HID output buffer that writes a 32-bit float setting, given the
/// float's bit pattern (`f32::to_bits`); the four bytes follow the field index, little-endian.
pub fn build_float_setting_buf(field: SettingField, index: u8, bits: u32) -> (r: [u8; 65])
    ensures
        r@ == float_setting_report(field, index, bits),
{
    let mut buf = zeroed_report();
    buf[0] = ReportType::GenericInputOutput.code();
    buf[1] = ReportData::DataSettingsFieldData.code();
    buf[2] = field.code();
    buf[3] = index;
    let b = u32_to_le(bits);
    buf[4] = b[0];
    buf[5] = b[1];
    buf[6] = b[2];
    buf[7] = b[3];
    assert(buf@ =~= float_setting_report(field, index, bits));
    buf
}

/// Builds the 65-byte HID output buffer for a direct-control write.
///
/// Buffer layout:
/// ```text
/// [0]    report ID      = 0xA3
/// [1]    report data    = 0x10 (DataOverrideData)
/// [2-3]  spring_force   (i16 LE, clamped to +-10 000)
/// [4-5]  constant_force (i16 LE, clamped to +-10 000)
/// [6-7]  periodic_force (i16 LE, clamped to +-10 000)
/// [8]    force_drop     (u8, clamped to 0-100)
/// ```
pub fn build_direct_control_buf(control: &DirectControl) -> (r: [u8; 65])
    ensures
        r@ == direct_control_report(*control),
{
    let mut buf = zeroed_report();
    buf[0] = ReportType::GenericInputOutput.code();
    buf[1] = ReportData::DataOverrideData.code();
    let s = i16_to_le(clamp_i16(control.spring_force, -10000, 10000));
    let c = i16_to_le(clamp_i16(control.constant_force, -10000, 10000));
    let p = i16_to_le(clamp_i16(control.periodic_force, -10000, 10000));
    buf[2] = s[0];
    buf[3] = s[1];
    buf[4] = c[0];
    buf[5] = c[1];
    buf[6] = p[0];
    buf[7] = p[1];
    buf[8] = if control.force_drop < 100 {
        control.force_drop
    } else {
        100
    };
    assert(buf@ =~= direct_control_report(*control));
    buf
}

/// Builds the 65-byte HID output buffer for a zero-payload generic command.
pub fn build_command_buf(command: ReportData) -> (r: [u8; 65])
    ensures
        r@ == command_report(command),
{
    let mut buf = zeroed_report();
    buf[0] = ReportType::GenericInputOutput.code();
    buf[1] = command.code();
    assert(buf@ =~= command_report(command));
    buf
}

/// Builds the 65-byte HID output buffer for a firmware activation.
///
/// Buffer layout:
/// ```text
/// [0]      report ID    = 0xA3
/// [1]      report data  = 0x13 (DataFirmwareActivationData)
/// [2-5]    chunk 0 as u32 LE
/// [6-9]    chunk 1 as u32 LE
/// [10-13]  chunk 2 as u32 LE
/// ```
pub fn build_activation_buf(key: [u32; 3]) -> (r: [u8; 65])
    ensures
        r@ == activation_report(key@),
{
    let mut buf = zeroed_report();
    buf[0] = ReportType::GenericInputOutput.code();
    buf[1] = ReportData::DataFirmwareActivationData.code();
    let k0 = u32_to_le(key[0]);
    let k1 = u32_to_le(key[1]);
    let k2 = u32_to_le(key[2]);
    buf[2] = k0[0];
    buf[3] = k0[1];
    buf[4] = k0[2];
    buf[5] = k0[3];
    buf[6] = k1[0];
    buf[7] = k1[1];
    buf[8] = k1[2];
    buf[9] = k1[3];
    buf[10] = k2[0];
    buf[11] = k2[1];
    buf[12] = k2[2];
    buf[13] = k2[3];
    assert(buf@ =~= activation_report(key@));
    buf
}

/// Reading back a setting report gives what was written: the header names the report, the
/// field and the index; the value bytes, decoded with the field's wire type, give the value
/// saturated to that type's range; every byte after them is zero.
pub proof fn lemma_setting_report_reads_back(field: SettingField, index: u8, value: int)
    ensures
        ({
            let r = setting_report(field, index, value);
            &&& r.len() == OUTPUT_REPORT_LEN
            &&& r[0] == ReportType::GenericInputOutput.spec_code()
            &&& r[1] == ReportData::DataSettingsFieldData.spec_code()
            &&& r[2] == field.spec_code()
            &&& r[3] == index
            &&& spec_field_type_for(field) == FieldType::Int8 ==> {
                &&& byte_as_i8(r[4]) == clamp(value, -128, 127)
                &&& forall|i: int| 5 <= i < OUTPUT_REPORT_LEN ==> r[i] == 0
            }
            &&& spec_field_type_for(field) == FieldType::Uint8 ==> {
                &&& r[4] == clamp(value, 0, 255)
                &&& forall|i: int| 5 <= i < OUTPUT_REPORT_LEN ==> r[i] == 0
            }
            &&& spec_field_type_for(field) == FieldType::Uint16 ==> {
                &&& le_u16(r, 4) == clamp(value, 0, 65535)
                &&& forall|i: int| 6 <= i < OUTPUT_REPORT_LEN ==> r[i] == 0
            }
        }),
{
    lemma_field_types_are_narrow(field);
    let r = setting_report(field, index, value);
    let ft = spec_field_type_for(field);
    if ft == FieldType::Int8 {
        lemma_i8_round_trip(clamp(value, -128, 127) as i8);
    } else if ft == FieldType::Uint16 {
        let v = clamp(value, 0, 65535) as u16;
        lemma_u16_round_trip(v);
        assert(r[4] == u16_le_bytes(v)[0] && r[5] == u16_le_bytes(v)[1]);
    }
}

/// Reading back a direct-control report gives each force saturated to +-10 000 (unchanged
/// when already in range) and the force drop capped at 100; every byte after them is zero.
pub proof fn lemma_direct_control_report_reads_back(control: DirectControl)
    ensures
        ({
            let r = direct_control_report(control);
            &&& r.len() == OUTPUT_REPORT_LEN
            &&& r[0] == ReportType::GenericInputOutput.spec_code()
            &&& r[1] == ReportData::DataOverrideData.spec_code()
            &&& le_i16(r, 2) == clamp(control.spring_force as int, -10000, 10000)
            &&& le_i16(r, 4) == clamp(control.constant_force as int, -10000, 10000)
            &&& le_i16(r, 6) == clamp(control.periodic_force as int, -10000, 10000)
            &&& r[8] == clamp(control.force_drop as int, 0, 100)
            &&& -10000 <= le_i16(r, 2) <= 10000
            &&& -10000 <= le_i16(r, 4) <= 10000
            &&& -10000 <= le_i16(r, 6) <= 10000
            &&& r[8] <= 100
            &&& -10000 <= control.spring_force <= 10000 ==> le_i16(r, 2) == control.spring_force
            &&& -10000 <= control.constant_force <= 10000 ==> le_i16(r, 4) == control.constant_force
            &&& -10000 <= control.periodic_force <= 10000 ==> le_i16(r, 6) == control.periodic_force
            &&& control.force_drop <= 100 ==> r[8] == control.force_drop
            &&& forall|i: int| 9 <= i < OUTPUT_REPORT_LEN ==> r[i] == 0
        }),
{
    let r = direct_control_report(control);
    let s = clamp(control.spring_force as int, -10000, 10000) as i16;
    let c = clamp(control.constant_force as int, -10000, 10000) as i16;
    let p = clamp(control.periodic_force as int, -10000, 10000) as i16;
    lemma_i16_round_trip(s);
    lemma_i16_round_trip(c);
    lemma_i16_round_trip(p);
    assert(r[2] == i16_le_bytes(s)[0] && r[3] == i16_le_bytes(s)[1]);
    assert(r[4] == i16_le_bytes(c)[0] && r[5] == i16_le_bytes(c)[1]);
    assert(r[6] == i16_le_bytes(p)[0] && r[7] == i16_le_bytes(p)[1]);
}

/// Reading back an activation report gives the three key words, in order; every byte
/// after them is zero.
pub proof fn lemma_activation_report_reads_back(key: Seq<u32>)
    requires
        key.len() == 3,
    ensures
        ({
            let r = activation_report(key);
            &&& r.len() == OUTPUT_REPORT_LEN
            &&& r[0] == ReportType::GenericInputOutput.spec_code()
            &&& r[1] == ReportData::DataFirmwareActivationData.spec_code()
            &&& le_u32(r, 2) == key[0]
            &&& le_u32(r, 6) == key[1]
            &&& le_u32(r, 10) == key[2]
            &&& forall|i: int| 14 <= i < OUTPUT_REPORT_LEN ==> r[i] == 0
        }),
{
    let r = activation_report(key);
    lemma_u32_round_trip(key[0]);
    lemma_u32_round_trip(key[1]);
    lemma_u32_round_trip(key[2]);
    let b0 = u32_le_bytes(key[0]);
    let b1 = u32_le_bytes(key[1]);
    let b2 = u32_le_bytes(key[2]);
    assert(r[2] == b0[0] && r[3] == b0[1] && r[4] == b0[2] && r[5] == b0[3]);
    assert(r[6] == b1[0] && r[7] == b1[1] && r[8] == b1[2] && r[9] == b1[3]);
    assert(r[10] == b2[0] && r[11] == b2[1] && r[12] == b2[2] && r[13] == b2[3]);
}

/// A direction multiplier (DirectX constant direction, encoder direction, force direction)
/// written to the device keeps its sign: the value byte reads back, as a signed byte, as the
/// value saturated to `[-128, 127]`; in particular `-1` is written as `0xFF`.
pub proof fn lemma_direction_setting_keeps_sign(field: SettingField, index: u8, value: int)
    requires
        field == SettingField::DirectXConstantDirection || field == SettingField::EncoderDirection
            || field == SettingField::ForceDirection,
    ensures
        byte_as_i8(setting_report(field, index, value)[4]) == clamp(value, -128, 127),
        value == -1 ==> setting_report(field, index, value)[4] == 0xFF,
        0 <= value <= 127 ==> setting_report(field, index, value)[4] == value,
{
    crate::enums::lemma_field_type_table(field);
    lemma_setting_report_reads_back(field, index, value);
}

} // verus!
