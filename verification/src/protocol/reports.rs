//! Decoding of the device's input and feature reports into the library's data types.
use vstd::prelude::*;

use crate::error::WheelError;
use crate::protocol::bytes::{
    byte_as_i8, byte_to_i8, i16_le_bytes, i8_as_byte, le_i16, le_u16, le_u32, lemma_i16_round_trip,
    lemma_i8_round_trip, lemma_u16_round_trip, lemma_u32_round_trip, read_le_i16, read_le_u16,
    read_le_u32, u16_le_bytes, u32_le_bytes,
};
use crate::types::{
    AdcSettings, DeviceState, EffectSettings, FirmwareLicense, FirmwareVersion, GpioSettings,
    HardwareSettings,
};

verus! {

/// Where a sequential read of fields with byte widths `widths`, starting at offset `at`,
/// first runs past `len` bytes: the end offset of the first field that does not fit.
/// When every field fits, the offset after the last one.
pub open spec fn first_overrun(widths: Seq<u8>, at: int, len: int) -> int
    decreases widths.len(),
{
    if widths.len() == 0 {
        at
    } else if at + widths[0] > len {
        at + widths[0]
    } else {
        first_overrun(widths.drop_first(), at + widths[0], len)
    }
}

/// The total number of bytes of fields with byte widths `widths`.
pub open spec fn layout_len(widths: Seq<u8>) -> int
    decreases widths.len(),
{
    if widths.len() == 0 {
        0
    } else {
        widths[0] + layout_len(widths.drop_first())
    }
}

/// The field widths of the effect settings feature report.
pub open spec fn effect_settings_layout() -> Seq<u8> {
    seq![2u8, 2, 2, 1, 1, 1, 1, 1, 1, 1, 1]
}

/// The field widths of the hardware settings feature report.
pub open spec fn hardware_settings_layout() -> Seq<u8> {
    seq![2u8, 2, 1, 1, 1, 1, 1, 1, 1, 1, 1, 1, 1, 1, 1]
}

/// `n` fields of `w` bytes each.
pub open spec fn uniform_layout(w: u8, n: nat) -> Seq<u8> {
    Seq::new(n, |i: int| w)
}

/// The field widths of the GPIO extension settings feature report: one byte each.
pub open spec fn gpio_settings_layout() -> Seq<u8> {
    uniform_layout(1, 47)
}

/// The field widths of the ADC extension settings feature report.
pub open spec fn adc_settings_layout() -> Seq<u8> {
    uniform_layout(2, 6) + uniform_layout(1, 12)
}

/// The field widths of the firmware license feature report.
pub open spec fn firmware_license_layout() -> Seq<u8> {
    seq![1u8, 1, 1, 1, 4, 4, 4, 4, 4, 4, 1]
}

/// The field widths of the device state input report (after its report ID).
pub open spec fn device_state_layout() -> Seq<u8> {
    seq![1u8, 1, 1, 1, 1, 2, 2]
}

/// The outcome of reading a struct of layout `widths` from `bytes`: `Ok` of a value that
/// `decoded` describes when all fields fit, else the shortfall error of the first field that
/// does not fit.
pub open spec fn parse_outcome<T>(
    bytes: Seq<u8>,
    widths: Seq<u8>,
    r: Result<T, WheelError>,
    decoded: spec_fn(T) -> bool,
) -> bool {
    if layout_len(widths) <= bytes.len() {
        r is Ok && decoded(r->Ok_0)
    } else {
        r == Err::<T, WheelError>(
            WheelError::BufferTooSmall {
                expected: first_overrun(widths, 0, bytes.len() as int) as usize,
                got: bytes.len() as usize,
            },
        )
    }
}

/// `s` holds the effect settings stored in `b`.
pub open spec fn decodes_effect_settings(b: Seq<u8>, s: EffectSettings) -> bool {
    &&& s.motion_range == le_u16(b, 0)
    &&& s.static_dampening_strength == le_u16(b, 2)
    &&& s.soft_stop_dampening_strength == le_u16(b, 4)
    &&& s.total_effect_strength == b[6]
    &&& s.integrated_spring_strength == b[7]
    &&& s.soft_stop_range == b[8]
    &&& s.soft_stop_strength == b[9]
    &&& s.direct_x_constant_direction == byte_as_i8(b[10])
    &&& s.direct_x_spring_strength == b[11]
    &&& s.direct_x_constant_strength == b[12]
    &&& s.direct_x_periodic_strength == b[13]
}

/// `s` holds the hardware settings stored in `b`.
pub open spec fn decodes_hardware_settings(b: Seq<u8>, s: HardwareSettings) -> bool {
    &&& s.encoder_cpr == le_u16(b, 0)
    &&& s.integral_gain == le_u16(b, 2)
    &&& s.proportional_gain == b[4]
    &&& s.force_enabled == b[5]
    &&& s.debug_torque == b[6]
    &&& s.amplifier_gain == b[7]
    &&& s.calibration_magnitude == b[8]
    &&& s.calibration_speed == b[9]
    &&& s.power_limit == b[10]
    &&& s.braking_limit == b[11]
    &&& s.position_smoothing == b[12]
    &&& s.speed_buffer_size == b[13]
    &&& s.encoder_direction == byte_as_i8(b[14])
    &&& s.force_direction == byte_as_i8(b[15])
    &&& s.pole_pairs == b[16]
}

/// `s` holds the GPIO extension settings stored in `b`.
pub open spec fn decodes_gpio_settings(b: Seq<u8>, s: GpioSettings) -> bool {
    &&& s.extension_mode == b[0]
    &&& s.pin_mode@ == b.subrange(1, 11)
    &&& s.button_mode@ == b.subrange(11, 43)
    &&& s.spi_mode == b[43]
    &&& s.spi_latch_mode == b[44]
    &&& s.spi_latch_delay == b[45]
    &&& s.spi_clk_pulse_length == b[46]
}

/// `s` holds the ADC extension settings stored in `b`.
pub open spec fn decodes_adc_settings(b: Seq<u8>, s: AdcSettings) -> bool {
    &&& s.r_axis_min@ == seq![le_u16(b, 0), le_u16(b, 2), le_u16(b, 4)]
    &&& s.r_axis_max@ == seq![le_u16(b, 6), le_u16(b, 8), le_u16(b, 10)]
    &&& s.r_axis_smoothing@ == b.subrange(12, 15)
    &&& s.r_axis_to_button_low@ == b.subrange(15, 18)
    &&& s.r_axis_to_button_high@ == b.subrange(18, 21)
    &&& s.r_axis_invert@ == b.subrange(21, 24)
}

/// `v` holds the firmware version stored in the four bytes at `b[at]`.
pub open spec fn decodes_firmware_version(b: Seq<u8>, at: int, v: FirmwareVersion) -> bool {
    &&& v.release_type == b[at]
    &&& v.major == b[at + 1]
    &&& v.minor == b[at + 2]
    &&& v.patch == b[at + 3]
}

/// `l` holds the firmware license stored in `b`.
pub open spec fn decodes_firmware_license(b: Seq<u8>, l: FirmwareLicense) -> bool {
    &&& decodes_firmware_version(b, 0, l.firmware_version)
    &&& l.serial_key@ == seq![le_u32(b, 4), le_u32(b, 8), le_u32(b, 12)]
    &&& l.device_id@ == seq![le_u32(b, 16), le_u32(b, 20), le_u32(b, 24)]
    &&& l.is_registered == b[28]
}

/// `s` holds the device state stored in `b` (the input report without its report ID).
pub open spec fn decodes_device_state(b: Seq<u8>, s: DeviceState) -> bool {
    &&& decodes_firmware_version(b, 0, s.firmware_version)
    &&& s.is_registered == b[4]
    &&& s.position == le_i16(b, 5)
    &&& s.torque == le_i16(b, 7)
}

proof fn lemma_first_overrun_step(widths: Seq<u8>, i: int, at: int, len: int)
    requires
        0 <= i < widths.len(),
        at + widths[i] <= len,
    ensures
        first_overrun(widths.skip(i), at, len) == first_overrun(widths.skip(i + 1), at + widths[i], len),
{
    assert(widths.skip(i).drop_first() =~= widths.skip(i + 1));
}

/// The end offset of the first field of layout `widths` that runs past `len` bytes.
fn overrun_end(widths: &[u8], len: usize) -> (r: usize)
    requires
        len <= isize::MAX,
    ensures
        r == first_overrun(widths@, 0, len as int),
{
    let mut at: usize = 0;
    let mut i: usize = 0;
    assert(widths@.skip(0) =~= widths@);
    while i < widths.len()
        invariant
            i <= widths@.len(),
            at <= len <= isize::MAX,
            first_overrun(widths@, 0, len as int) == first_overrun(widths@.skip(i as int), at as int, len as int),
        decreases widths@.len() - i,
    {
        let w = widths[i] as usize;
        if w > len - at {
            return at + w;
        }
        proof {
            lemma_first_overrun_step(widths@, i as int, at as int, len as int);
        }
        at = at + w;
        i = i + 1;
    }
    assert(widths@.skip(i as int) =~= Seq::<u8>::empty());
    at
}

/// The shortfall error for a read of layout `widths` from `len` bytes.
fn layout_error(widths: &[u8], len: usize) -> (r: WheelError)
    requires
        len <= isize::MAX,
    ensures
        r == (WheelError::BufferTooSmall {
            expected: first_overrun(widths@, 0, len as int) as usize,
            got: len,
        }),
{
    WheelError::BufferTooSmall { expected: overrun_end(widths, len), got: len }
}

proof fn lemma_take_step(w: Seq<u8>, k: int)
    requires
        0 <= k < w.len(),
    ensures
        w.take(k + 1) =~= seq![w[0]] + w.drop_first().take(k),
{
}

/// Where a read of a layout that does not fit first runs out: at the end of the first field
/// that does not fit, i.e. of the field `k` that starts within the bytes and ends past them.
pub proof fn lemma_first_overrun_meaning(widths: Seq<u8>, at: int, len: int)
    requires
        0 <= at <= len,
        at + layout_len(widths) > len,
    ensures
        exists|k: int|
            0 <= k < widths.len() && at + layout_len(#[trigger] widths.take(k)) <= len && len < at
                + layout_len(widths.take(k + 1)) && first_overrun(widths, at, len) == at
                + layout_len(widths.take(k + 1)),
    decreases widths.len(),
{
    assert(widths.take(0) =~= Seq::<u8>::empty());
    assert(widths.len() > 0);
    lemma_take_step(widths, 0);
    assert(Seq::<u8>::empty().take(0) =~= Seq::<u8>::empty());
    lemma_layout_len_concat(seq![widths[0]], widths.drop_first().take(0));
    assert(seq![widths[0]].drop_first() =~= Seq::<u8>::empty());
    assert(layout_len(Seq::<u8>::empty()) == 0);
    assert(layout_len(seq![widths[0]]) == widths[0]);
    if at + widths[0] > len {
        assert(widths.drop_first().take(0) =~= Seq::<u8>::empty());
        assert(layout_len(widths.take(1)) == widths[0]);
        assert(0 <= 0 < widths.len() && at + layout_len(widths.take(0)) <= len);
    } else {
        lemma_first_overrun_meaning(widths.drop_first(), at + widths[0], len);
        let rest = widths.drop_first();
        let j = choose|j: int|
            0 <= j < rest.len() && at + widths[0] + layout_len(#[trigger] rest.take(j)) <= len
                && len < at + widths[0] + layout_len(rest.take(j + 1)) && first_overrun(
                rest,
                at + widths[0],
                len,
            ) == at + widths[0] + layout_len(rest.take(j + 1));
        lemma_take_step(widths, j + 1);
        lemma_take_step(widths, j);
        lemma_layout_len_concat(seq![widths[0]], rest.take(j));
        lemma_layout_len_concat(seq![widths[0]], rest.take(j + 1));
        assert(at + layout_len(widths.take(j + 1)) <= len);
    }
}

/// The lengths of the report layouts: 14 bytes of effect settings, 17 of hardware settings,
/// 47 of GPIO settings, 24 of ADC settings, 29 of firmware license and 9 of device state.
pub proof fn lemma_layout_lengths()
    ensures
        layout_len(effect_settings_layout()) == 14,
        layout_len(hardware_settings_layout()) == 17,
        layout_len(gpio_settings_layout()) == 47,
        layout_len(adc_settings_layout()) == 24,
        layout_len(firmware_license_layout()) == 29,
        layout_len(device_state_layout()) == 9,
{
    reveal_with_fuel(layout_len, 16);
    lemma_layout_len_uniform(1, 47);
    lemma_layout_len_concat(uniform_layout(2, 6), uniform_layout(1, 12));
    lemma_layout_len_uniform(2, 6);
    lemma_layout_len_uniform(1, 12);
}

/// Decodes the effect settings feature payload (report ID removed).
pub fn parse_effect_settings(payload: &[u8]) -> (r: Result<EffectSettings, WheelError>)
    requires
        payload@.len() <= isize::MAX,
    ensures
        parse_outcome(
            payload@,
            effect_settings_layout(),
            r,
            |s: EffectSettings| decodes_effect_settings(payload@, s),
        ),
{
    let layout: [u8; 11] = [2, 2, 2, 1, 1, 1, 1, 1, 1, 1, 1];
    assert(layout@ =~= effect_settings_layout());
    assert(layout_len(effect_settings_layout()) == 14) by {
        reveal_with_fuel(layout_len, 12);
    }
    if payload.len() < 14 {
        return Err(layout_error(layout.as_slice(), payload.len()));
    }
    Ok(
        EffectSettings {
            motion_range: read_le_u16(payload, 0),
            static_dampening_strength: read_le_u16(payload, 2),
            soft_stop_dampening_strength: read_le_u16(payload, 4),
            total_effect_strength: payload[6],
            integrated_spring_strength: payload[7],
            soft_stop_range: payload[8],
            soft_stop_strength: payload[9],
            direct_x_constant_direction: byte_to_i8(payload[10]),
            direct_x_spring_strength: payload[11],
            direct_x_constant_strength: payload[12],
            direct_x_periodic_strength: payload[13],
        },
    )
}


proof fn lemma_layout_len_concat(a: Seq<u8>, b: Seq<u8>)
    ensures
        layout_len(a + b) == layout_len(a) + layout_len(b),
    decreases a.len(),
{
    if a.len() == 0 {
        assert(a + b =~= b);
    } else {
        assert((a + b).drop_first() =~= a.drop_first() + b);
        lemma_layout_len_concat(a.drop_first(), b);
    }
}

proof fn lemma_layout_len_uniform(w: u8, n: nat)
    ensures
        layout_len(uniform_layout(w, n)) == n * w,
    decreases n,
{
    let s = uniform_layout(w, n);
    if n > 0 {
        assert(s[0] == w);
        assert(s.drop_first() =~= uniform_layout(w, (n - 1) as nat));
        lemma_layout_len_uniform(w, (n - 1) as nat);
        assert(n * w == (n - 1) * w + w) by (nonlinear_arith);
        assert(layout_len(s) == s[0] + layout_len(s.drop_first()));
    } else {
        assert(n * w == 0) by (nonlinear_arith)
            requires
                n == 0,
        ;
    }
}

/// Decodes the hardware settings feature payload (report ID removed).
pub fn parse_hardware_settings(payload: &[u8]) -> (r: Result<HardwareSettings, WheelError>)
    requires
        payload@.len() <= isize::MAX,
    ensures
        parse_outcome(
            payload@,
            hardware_settings_layout(),
            r,
            |s: HardwareSettings| decodes_hardware_settings(payload@, s),
        ),
{
    let layout: [u8; 15] = [2, 2, 1, 1, 1, 1, 1, 1, 1, 1, 1, 1, 1, 1, 1];
    assert(layout@ =~= hardware_settings_layout());
    assert(layout_len(hardware_settings_layout()) == 17) by {
        reveal_with_fuel(layout_len, 16);
    }
    if payload.len() < 17 {
        return Err(layout_error(layout.as_slice(), payload.len()));
    }
    Ok(
        HardwareSettings {
            encoder_cpr: read_le_u16(payload, 0),
            integral_gain: read_le_u16(payload, 2),
            proportional_gain: payload[4],
            force_enabled: payload[5],
            debug_torque: payload[6],
            amplifier_gain: payload[7],
            calibration_magnitude: payload[8],
            calibration_speed: payload[9],
            power_limit: payload[10],
            braking_limit: payload[11],
            position_smoothing: payload[12],
            speed_buffer_size: payload[13],
            encoder_direction: byte_to_i8(payload[14]),
            force_direction: byte_to_i8(payload[15]),
            pole_pairs: payload[16],
        },
    )
}

/// Decodes the GPIO extension settings feature payload (report ID removed).
pub fn parse_gpio_settings(payload: &[u8]) -> (r: Result<GpioSettings, WheelError>)
    requires
        payload@.len() <= isize::MAX,
    ensures
        parse_outcome(
            payload@,
            gpio_settings_layout(),
            r,
            |s: GpioSettings| decodes_gpio_settings(payload@, s),
        ),
{
    let layout = [1u8; 47];
    proof {
        broadcast use vstd::array::group_array_axioms;

        assert(layout@ =~= gpio_settings_layout());
        lemma_layout_len_uniform(1, 47);
    }
    if payload.len() < 47 {
        return Err(layout_error(layout.as_slice(), payload.len()));
    }
    let mut pin_mode = [0u8; 10];
    let mut i: usize = 0;
    while i < 10
        invariant
            i <= 10,
            47 <= payload@.len(),
            forall|j: int| 0 <= j < i ==> pin_mode@[j] == payload@[1 + j],
        decreases 10 - i,
    {
        pin_mode[i] = payload[1 + i];
        i = i + 1;
    }
    let mut button_mode = [0u8; 32];
    let mut i: usize = 0;
    while i < 32
        invariant
            i <= 32,
            47 <= payload@.len(),
            forall|j: int| 0 <= j < i ==> button_mode@[j] == payload@[11 + j],
        decreases 32 - i,
    {
        button_mode[i] = payload[11 + i];
        i = i + 1;
    }
    assert(pin_mode@ =~= payload@.subrange(1, 11));
    assert(button_mode@ =~= payload@.subrange(11, 43));
    Ok(
        GpioSettings {
            extension_mode: payload[0],
            pin_mode,
            button_mode,
            spi_mode: payload[43],
            spi_latch_mode: payload[44],
            spi_latch_delay: payload[45],
            spi_clk_pulse_length: payload[46],
        },
    )
}

/// Decodes the ADC extension settings feature payload (report ID removed).
pub fn parse_adc_settings(payload: &[u8]) -> (r: Result<AdcSettings, WheelError>)
    requires
        payload@.len() <= isize::MAX,
    ensures
        parse_outcome(
            payload@,
            adc_settings_layout(),
            r,
            |s: AdcSettings| decodes_adc_settings(payload@, s),
        ),
{
    let layout: [u8; 18] = [2, 2, 2, 2, 2, 2, 1, 1, 1, 1, 1, 1, 1, 1, 1, 1, 1, 1];
    proof {
        assert(layout@ =~= adc_settings_layout());
        lemma_layout_len_concat(uniform_layout(2, 6), uniform_layout(1, 12));
        lemma_layout_len_uniform(2, 6);
        lemma_layout_len_uniform(1, 12);
    }
    if payload.len() < 24 {
        return Err(layout_error(layout.as_slice(), payload.len()));
    }
    let r_axis_min = [read_le_u16(payload, 0), read_le_u16(payload, 2), read_le_u16(payload, 4)];
    let r_axis_max = [read_le_u16(payload, 6), read_le_u16(payload, 8), read_le_u16(payload, 10)];
    let r_axis_smoothing = [payload[12], payload[13], payload[14]];
    let r_axis_to_button_low = [payload[15], payload[16], payload[17]];
    let r_axis_to_button_high = [payload[18], payload[19], payload[20]];
    let r_axis_invert = [payload[21], payload[22], payload[23]];
    assert(r_axis_smoothing@ =~= payload@.subrange(12, 15));
    assert(r_axis_to_button_low@ =~= payload@.subrange(15, 18));
    assert(r_axis_to_button_high@ =~= payload@.subrange(18, 21));
    assert(r_axis_invert@ =~= payload@.subrange(21, 24));
    Ok(
        AdcSettings {
            r_axis_min,
            r_axis_max,
            r_axis_smoothing,
            r_axis_to_button_low,
            r_axis_to_button_high,
            r_axis_invert,
        },
    )
}

/// Decodes the firmware license feature payload (report ID removed).
pub fn parse_firmware_license(payload: &[u8]) -> (r: Result<FirmwareLicense, WheelError>)
    requires
        payload@.len() <= isize::MAX,
    ensures
        parse_outcome(
            payload@,
            firmware_license_layout(),
            r,
            |l: FirmwareLicense| decodes_firmware_license(payload@, l),
        ),
{
    let layout: [u8; 11] = [1, 1, 1, 1, 4, 4, 4, 4, 4, 4, 1];
    assert(layout@ =~= firmware_license_layout());
    assert(layout_len(firmware_license_layout()) == 29) by {
        reveal_with_fuel(layout_len, 12);
    }
    if payload.len() < 29 {
        return Err(layout_error(layout.as_slice(), payload.len()));
    }
    let serial_key = [read_le_u32(payload, 4), read_le_u32(payload, 8), read_le_u32(payload, 12)];
    let device_id = [read_le_u32(payload, 16), read_le_u32(payload, 20), read_le_u32(payload, 24)];
    Ok(
        FirmwareLicense {
            firmware_version: FirmwareVersion {
                release_type: payload[0],
                major: payload[1],
                minor: payload[2],
                patch: payload[3],
            },
            serial_key,
            device_id,
            is_registered: payload[28],
        },
    )
}

/// Decodes a device state from the bytes of an input report that follow its report ID.
pub fn parse_device_state(payload: &[u8]) -> (r: Result<DeviceState, WheelError>)
    requires
        payload@.len() <= isize::MAX,
    ensures
        parse_outcome(
            payload@,
            device_state_layout(),
            r,
            |s: DeviceState| decodes_device_state(payload@, s),
        ),
{
    let layout: [u8; 7] = [1, 1, 1, 1, 1, 2, 2];
    assert(layout@ =~= device_state_layout());
    assert(layout_len(device_state_layout()) == 9) by {
        reveal_with_fuel(layout_len, 8);
    }
    if payload.len() < 9 {
        return Err(layout_error(layout.as_slice(), payload.len()));
    }
    Ok(
        DeviceState {
            firmware_version: FirmwareVersion {
                release_type: payload[0],
                major: payload[1],
                minor: payload[2],
                patch: payload[3],
            },
            is_registered: payload[4],
            position: read_le_i16(payload, 5),
            torque: read_le_i16(payload, 7),
        },
    )
}

/// The payload of a feature report that the device returned in `report`, `n` bytes long
/// including the report ID: the bytes after the report ID, or a shortfall error when the
/// device returned fewer than two bytes.
pub fn feature_payload(report: &[u8], n: usize) -> (r: Result<Vec<u8>, WheelError>)
    requires
        n <= report@.len(),
    ensures
        n < 2 ==> r == Err::<Vec<u8>, WheelError>(WheelError::BufferTooSmall { expected: 2, got: n }),
        n >= 2 ==> (r matches Ok(p) && p@ == report@.subrange(1, n as int)),
{
    if n < 2 {
        return Err(WheelError::BufferTooSmall { expected: 2, got: n });
    }
    Ok(vstd::slice::slice_to_vec(vstd::slice::slice_subrange(report, 1, n)))
}

proof fn lemma_u16_at(b: Seq<u8>, at: int, v: u16)
    requires
        0 <= at,
        at + 2 <= b.len(),
        b[at] == u16_le_bytes(v)[0],
        b[at + 1] == u16_le_bytes(v)[1],
    ensures
        le_u16(b, at) == v,
{
    lemma_u16_round_trip(v);
}

proof fn lemma_i16_at(b: Seq<u8>, at: int, v: i16)
    requires
        0 <= at,
        at + 2 <= b.len(),
        b[at] == i16_le_bytes(v)[0],
        b[at + 1] == i16_le_bytes(v)[1],
    ensures
        le_i16(b, at) == v,
{
    lemma_i16_round_trip(v);
}

proof fn lemma_u32_at(b: Seq<u8>, at: int, v: u32)
    requires
        0 <= at,
        at + 4 <= b.len(),
        b[at] == u32_le_bytes(v)[0],
        b[at + 1] == u32_le_bytes(v)[1],
        b[at + 2] == u32_le_bytes(v)[2],
        b[at + 3] == u32_le_bytes(v)[3],
    ensures
        le_u32(b, at) == v,
{
    lemma_u32_round_trip(v);
}

/// The bytes the device stores for `s`: its fields in declaration order, packed,
/// little-endian.
pub open spec fn effect_settings_bytes(s: EffectSettings) -> Seq<u8> {
    u16_le_bytes(s.motion_range) + u16_le_bytes(s.static_dampening_strength) + u16_le_bytes(
        s.soft_stop_dampening_strength,
    ) + seq![
        s.total_effect_strength,
        s.integrated_spring_strength,
        s.soft_stop_range,
        s.soft_stop_strength,
        i8_as_byte(s.direct_x_constant_direction),
        s.direct_x_spring_strength,
        s.direct_x_constant_strength,
        s.direct_x_periodic_strength,
    ]
}

/// The bytes the device stores for `s`: its fields in declaration order, packed,
/// little-endian.
pub open spec fn hardware_settings_bytes(s: HardwareSettings) -> Seq<u8> {
    u16_le_bytes(s.encoder_cpr) + u16_le_bytes(s.integral_gain) + seq![
        s.proportional_gain,
        s.force_enabled,
        s.debug_torque,
        s.amplifier_gain,
        s.calibration_magnitude,
        s.calibration_speed,
        s.power_limit,
        s.braking_limit,
        s.position_smoothing,
        s.speed_buffer_size,
        i8_as_byte(s.encoder_direction),
        i8_as_byte(s.force_direction),
        s.pole_pairs,
    ]
}

/// The bytes the device stores for `s`: its fields in declaration order, packed.
pub open spec fn gpio_settings_bytes(s: GpioSettings) -> Seq<u8> {
    seq![s.extension_mode] + s.pin_mode@ + s.button_mode@ + seq![
        s.spi_mode,
        s.spi_latch_mode,
        s.spi_latch_delay,
        s.spi_clk_pulse_length,
    ]
}

/// The bytes the device stores for `s`: its fields in declaration order, packed,
/// little-endian.
pub open spec fn adc_settings_bytes(s: AdcSettings) -> Seq<u8> {
    u16_le_bytes(s.r_axis_min[0]) + u16_le_bytes(s.r_axis_min[1]) + u16_le_bytes(s.r_axis_min[2])
        + u16_le_bytes(s.r_axis_max[0]) + u16_le_bytes(s.r_axis_max[1]) + u16_le_bytes(
        s.r_axis_max[2],
    ) + s.r_axis_smoothing@ + s.r_axis_to_button_low@ + s.r_axis_to_button_high@
        + s.r_axis_invert@
}

/// The bytes the device stores for the firmware version `v`.
pub open spec fn firmware_version_bytes(v: FirmwareVersion) -> Seq<u8> {
    seq![v.release_type, v.major, v.minor, v.patch]
}

/// The bytes the device stores for `l`: its fields in declaration order, packed,
/// little-endian.
pub open spec fn firmware_license_bytes(l: FirmwareLicense) -> Seq<u8> {
    firmware_version_bytes(l.firmware_version) + u32_le_bytes(l.serial_key[0]) + u32_le_bytes(
        l.serial_key[1],
    ) + u32_le_bytes(l.serial_key[2]) + u32_le_bytes(l.device_id[0]) + u32_le_bytes(l.device_id[1])
        + u32_le_bytes(l.device_id[2]) + seq![l.is_registered]
}

/// The bytes of an input report after its report ID that carry the state `s`.
pub open spec fn device_state_bytes(s: DeviceState) -> Seq<u8> {
    firmware_version_bytes(s.firmware_version) + seq![s.is_registered] + i16_le_bytes(s.position)
        + i16_le_bytes(s.torque)
}

/// Decoding the stored bytes of effect settings, whatever follows them, gives those settings
/// back, field for field; the stored bytes fill the layout exactly.
#[verifier::spinoff_prover]
#[verifier::rlimit(40)]
pub proof fn lemma_effect_settings_round_trip(s: EffectSettings, rest: Seq<u8>, t: EffectSettings)
    requires
        decodes_effect_settings(effect_settings_bytes(s) + rest, t),
    ensures
        t == s,
        effect_settings_bytes(s).len() == layout_len(effect_settings_layout()),
{
    lemma_layout_lengths();
    let b = effect_settings_bytes(s) + rest;
    lemma_u16_at(b, 0, s.motion_range);
    lemma_u16_at(b, 2, s.static_dampening_strength);
    lemma_u16_at(b, 4, s.soft_stop_dampening_strength);
    lemma_i8_round_trip(s.direct_x_constant_direction);
    assert(b[10] == i8_as_byte(s.direct_x_constant_direction));
}

/// Decoding the stored bytes of hardware settings, whatever follows them, gives those
/// settings back, field for field; the stored bytes fill the layout exactly.
#[verifier::spinoff_prover]
#[verifier::rlimit(40)]
pub proof fn lemma_hardware_settings_round_trip(
    s: HardwareSettings,
    rest: Seq<u8>,
    t: HardwareSettings,
)
    requires
        decodes_hardware_settings(hardware_settings_bytes(s) + rest, t),
    ensures
        t == s,
        hardware_settings_bytes(s).len() == layout_len(hardware_settings_layout()),
{
    lemma_layout_lengths();
    let b = hardware_settings_bytes(s) + rest;
    lemma_u16_at(b, 0, s.encoder_cpr);
    lemma_u16_at(b, 2, s.integral_gain);
    lemma_i8_round_trip(s.encoder_direction);
    lemma_i8_round_trip(s.force_direction);
    assert(b[14] == i8_as_byte(s.encoder_direction));
    assert(b[15] == i8_as_byte(s.force_direction));
}

/// Decoding the stored bytes of GPIO settings, whatever follows them, gives those settings
/// back, field for field; the stored bytes fill the layout exactly.
#[verifier::spinoff_prover]
#[verifier::rlimit(40)]
pub proof fn lemma_gpio_settings_round_trip(s: GpioSettings, rest: Seq<u8>, t: GpioSettings)
    requires
        decodes_gpio_settings(gpio_settings_bytes(s) + rest, t),
    ensures
        t.extension_mode == s.extension_mode,
        t.pin_mode@ == s.pin_mode@,
        t.button_mode@ == s.button_mode@,
        t.spi_mode == s.spi_mode,
        t.spi_latch_mode == s.spi_latch_mode,
        t.spi_latch_delay == s.spi_latch_delay,
        t.spi_clk_pulse_length == s.spi_clk_pulse_length,
        gpio_settings_bytes(s).len() == layout_len(gpio_settings_layout()),
{
    lemma_layout_lengths();
    let b = gpio_settings_bytes(s) + rest;
    assert(b.subrange(1, 11) =~= s.pin_mode@);
    assert(b.subrange(11, 43) =~= s.button_mode@);
}

/// Decoding the stored bytes of ADC settings, whatever follows them, gives those settings
/// back, field for field; the stored bytes fill the layout exactly.
#[verifier::spinoff_prover]
#[verifier::rlimit(40)]
pub proof fn lemma_adc_settings_round_trip(s: AdcSettings, rest: Seq<u8>, t: AdcSettings)
    requires
        decodes_adc_settings(adc_settings_bytes(s) + rest, t),
    ensures
        t.r_axis_min@ == s.r_axis_min@,
        t.r_axis_max@ == s.r_axis_max@,
        t.r_axis_smoothing@ == s.r_axis_smoothing@,
        t.r_axis_to_button_low@ == s.r_axis_to_button_low@,
        t.r_axis_to_button_high@ == s.r_axis_to_button_high@,
        t.r_axis_invert@ == s.r_axis_invert@,
        adc_settings_bytes(s).len() == layout_len(adc_settings_layout()),
{
    lemma_layout_lengths();
    let b = adc_settings_bytes(s) + rest;
    lemma_u16_at(b, 0, s.r_axis_min[0]);
    lemma_u16_at(b, 2, s.r_axis_min[1]);
    lemma_u16_at(b, 4, s.r_axis_min[2]);
    lemma_u16_at(b, 6, s.r_axis_max[0]);
    lemma_u16_at(b, 8, s.r_axis_max[1]);
    lemma_u16_at(b, 10, s.r_axis_max[2]);
    assert(t.r_axis_min@ =~= s.r_axis_min@);
    assert(t.r_axis_max@ =~= s.r_axis_max@);
    assert(b.subrange(12, 15) =~= s.r_axis_smoothing@);
    assert(b.subrange(15, 18) =~= s.r_axis_to_button_low@);
    assert(b.subrange(18, 21) =~= s.r_axis_to_button_high@);
    assert(b.subrange(21, 24) =~= s.r_axis_invert@);
}

/// Decoding the stored bytes of a firmware license, whatever follows them, gives that
/// license back, field for field; the stored bytes fill the layout exactly.
#[verifier::spinoff_prover]
#[verifier::rlimit(40)]
pub proof fn lemma_firmware_license_round_trip(l: FirmwareLicense, rest: Seq<u8>, t: FirmwareLicense)
    requires
        decodes_firmware_license(firmware_license_bytes(l) + rest, t),
    ensures
        t.firmware_version == l.firmware_version,
        t.serial_key@ == l.serial_key@,
        t.device_id@ == l.device_id@,
        t.is_registered == l.is_registered,
        firmware_license_bytes(l).len() == layout_len(firmware_license_layout()),
{
    lemma_layout_lengths();
    let v = firmware_version_bytes(l.firmware_version);
    let w0 = u32_le_bytes(l.serial_key[0]);
    let w1 = u32_le_bytes(l.serial_key[1]);
    let w2 = u32_le_bytes(l.serial_key[2]);
    let w3 = u32_le_bytes(l.device_id[0]);
    let w4 = u32_le_bytes(l.device_id[1]);
    let w5 = u32_le_bytes(l.device_id[2]);
    let b = firmware_license_bytes(l) + rest;
    assert(b =~= v + w0 + w1 + w2 + w3 + w4 + w5 + seq![l.is_registered] + rest);
    lemma_u32_at(b, 4, l.serial_key[0]);
    lemma_u32_at(b, 8, l.serial_key[1]);
    lemma_u32_at(b, 12, l.serial_key[2]);
    lemma_u32_at(b, 16, l.device_id[0]);
    lemma_u32_at(b, 20, l.device_id[1]);
    lemma_u32_at(b, 24, l.device_id[2]);
    assert(t.serial_key@ =~= l.serial_key@);
    assert(t.device_id@ =~= l.device_id@);
}

/// Decoding the bytes that carry a device state, whatever follows them, gives that state
/// back, field for field; the bytes fill the layout exactly.
#[verifier::spinoff_prover]
#[verifier::rlimit(40)]
pub proof fn lemma_device_state_round_trip(s: DeviceState, rest: Seq<u8>, t: DeviceState)
    requires
        decodes_device_state(device_state_bytes(s) + rest, t),
    ensures
        t == s,
        device_state_bytes(s).len() == layout_len(device_state_layout()),
{
    lemma_layout_lengths();
    let b = device_state_bytes(s) + rest;
    lemma_i16_at(b, 5, s.position);
    lemma_i16_at(b, 7, s.torque);
}

} // verus!
