//! Enumerations for GPIO, hardware, SPI, report types, and settings fields.
//!
//! Every enumeration that travels on the wire carries its byte through `code`.
use vstd::prelude::*;

verus! {

/// Controls which extension protocol is active on the GPIO header.
#[derive(Debug, Clone, Copy, PartialEq, Eq, Structural)]
pub enum ExtensionMode {
    /// No extension active; GPIO pins used in standalone mode.
    Standalone,
    /// Custom SPI/ADC extension attached.
    Custom,
}

impl ExtensionMode {
    /// The byte that stands for this value on the wire.
    pub open spec fn spec_code(self) -> u8 {
        match self {
            ExtensionMode::Standalone => 0x00,
            ExtensionMode::Custom => 0x01,
        }
    }

    /// The byte that stands for this value on the wire.
    #[verifier::when_used_as_spec(spec_code)]
    pub fn code(self) -> (r: u8)
        ensures
            r == self.spec_code(),
    {
        match self {
            ExtensionMode::Standalone => 0x00,
            ExtensionMode::Custom => 0x01,
        }
    }
}

/// Function assigned to an individual GPIO header pin.
#[derive(Debug, Clone, Copy, PartialEq, Eq, Structural)]
pub enum PinMode {
    /// Pin disabled / not used.
    Disabled,
    /// General-purpose digital input (button).
    Gpio,
    /// Analog axis input (ADC).
    Analog,
    /// SPI chip-select output.
    SpiCs,
    /// SPI clock output.
    SpiSck,
    /// SPI MISO input.
    SpiMiso,
    /// Active-high input that enables force-feedback output while held.
    EnableEffects,
    /// Active-high input that resets the wheel center point.
    CenterReset,
    /// PWM output for braking.
    BrakingPwm,
    /// LED output that mirrors the force-feedback active state.
    EffectLed,
    /// Active-high input that reboots the controller.
    Reboot,
}

impl PinMode {
    /// The byte that stands for this value on the wire.
    pub open spec fn spec_code(self) -> u8 {
        match self {
            PinMode::Disabled => 0x00,
            PinMode::Gpio => 0x01,
            PinMode::Analog => 0x02,
            PinMode::SpiCs => 0x03,
            PinMode::SpiSck => 0x04,
            PinMode::SpiMiso => 0x05,
            PinMode::EnableEffects => 0x06,
            PinMode::CenterReset => 0x07,
            PinMode::BrakingPwm => 0x08,
            PinMode::EffectLed => 0x09,
            PinMode::Reboot => 0x0a,
        }
    }

    /// The byte that stands for this value on the wire.
    #[verifier::when_used_as_spec(spec_code)]
    pub fn code(self) -> (r: u8)
        ensures
            r == self.spec_code(),
    {
        match self {
            PinMode::Disabled => 0x00,
            PinMode::Gpio => 0x01,
            PinMode::Analog => 0x02,
            PinMode::SpiCs => 0x03,
            PinMode::SpiSck => 0x04,
            PinMode::SpiMiso => 0x05,
            PinMode::EnableEffects => 0x06,
            PinMode::CenterReset => 0x07,
            PinMode::BrakingPwm => 0x08,
            PinMode::EffectLed => 0x09,
            PinMode::Reboot => 0x0a,
        }
    }
}

/// Logic applied to a digital button input.
#[derive(Debug, Clone, Copy, PartialEq, Eq, Structural)]
pub enum ButtonMode {
    /// Button disabled.
    Disabled,
    /// Active-high (pressed = logic 1).
    Normal,
    /// Active-low (pressed = logic 0).
    Inverted,
    /// Not implemented in firmware.
    Pulse,
    /// Not implemented in firmware.
    PulseInverted,
}

impl ButtonMode {
    /// The byte that stands for this value on the wire.
    pub open spec fn spec_code(self) -> u8 {
        match self {
            ButtonMode::Disabled => 0x00,
            ButtonMode::Normal => 0x01,
            ButtonMode::Inverted => 0x02,
            ButtonMode::Pulse => 0x03,
            ButtonMode::PulseInverted => 0x04,
        }
    }

    /// The byte that stands for this value on the wire.
    #[verifier::when_used_as_spec(spec_code)]
    pub fn code(self) -> (r: u8)
        ensures
            r == self.spec_code(),
    {
        match self {
            ButtonMode::Disabled => 0x00,
            ButtonMode::Normal => 0x01,
            ButtonMode::Inverted => 0x02,
            ButtonMode::Pulse => 0x03,
            ButtonMode::PulseInverted => 0x04,
        }
    }
}

/// Current-sense amplifier gain setting.
///
/// Lower gain means a higher maximum detectable current and a higher peak torque.
#[derive(Debug, Clone, Copy, PartialEq, Eq, Structural)]
pub enum AmplifierGain {
    /// x80 gain (lowest current range, highest sensitivity).
    Gain80,
    /// x40 gain.
    Gain40,
    /// x20 gain.
    Gain20,
    /// x10 gain (highest current range, lowest sensitivity).
    Gain10,
}

impl AmplifierGain {
    /// The byte that stands for this value on the wire.
    pub open spec fn spec_code(self) -> u8 {
        match self {
            AmplifierGain::Gain80 => 0x00,
            AmplifierGain::Gain40 => 0x01,
            AmplifierGain::Gain20 => 0x02,
            AmplifierGain::Gain10 => 0x03,
        }
    }

    /// The byte that stands for this value on the wire.
    #[verifier::when_used_as_spec(spec_code)]
    pub fn code(self) -> (r: u8)
        ensures
            r == self.spec_code(),
    {
        match self {
            AmplifierGain::Gain80 => 0x00,
            AmplifierGain::Gain40 => 0x01,
            AmplifierGain::Gain20 => 0x02,
            AmplifierGain::Gain10 => 0x03,
        }
    }
}

/// SPI clock/latch behaviour modes.
#[derive(Debug, Clone, Copy, PartialEq, Eq, Structural)]
pub enum SpiMode {
    /// First bit output immediately when CS activates. READ-CLK_UP-DELAY-CLK_DOWN-DELAY
    Mode0,
    /// First bit output on first clock edge after CS activates. CLK_UP-DELAY-READ-CLK_DOWN-DELAY
    Mode1,
    /// First bit output immediately when CS activates. READ-CLK_DOWN-DELAY-CLK_UP-DELAY
    Mode2,
    /// First bit output on first clock edge after CS activates. CLK_DOWN-DELAY-READ-CLK_UP-DELAY
    Mode3,
}

impl SpiMode {
    /// The byte that stands for this value on the wire.
    pub open spec fn spec_code(self) -> u8 {
        match self {
            SpiMode::Mode0 => 0x00,
            SpiMode::Mode1 => 0x01,
            SpiMode::Mode2 => 0x02,
            SpiMode::Mode3 => 0x03,
        }
    }

    /// The byte that stands for this value on the wire.
    #[verifier::when_used_as_spec(spec_code)]
    pub fn code(self) -> (r: u8)
        ensures
            r == self.spec_code(),
    {
        match self {
            SpiMode::Mode0 => 0x00,
            SpiMode::Mode1 => 0x01,
            SpiMode::Mode2 => 0x02,
            SpiMode::Mode3 => 0x03,
        }
    }
}

/// Polarity of the SPI chip-select (nCS) latch pulse.
#[derive(Debug, Clone, Copy, PartialEq, Eq, Structural)]
pub enum SpiLatchMode {
    /// nCS goes UP for triggering SPI latch.
    LatchUp,
    /// nCS goes DOWN for triggering SPI latch.
    LatchDown,
}

impl SpiLatchMode {
    /// The byte that stands for this value on the wire.
    pub open spec fn spec_code(self) -> u8 {
        match self {
            SpiLatchMode::LatchUp => 0x00,
            SpiLatchMode::LatchDown => 0x01,
        }
    }

    /// The byte that stands for this value on the wire.
    #[verifier::when_used_as_spec(spec_code)]
    pub fn code(self) -> (r: u8)
        ensures
            r == self.spec_code(),
    {
        match self {
            SpiLatchMode::LatchUp => 0x00,
            SpiLatchMode::LatchDown => 0x01,
        }
    }
}

/// HID report sub-type byte sent as the first payload byte of a `GenericInputOutput` report.
#[derive(Debug, Clone, Copy, PartialEq, Eq, Structural)]
pub enum ReportData {
    /// Reboot the controller immediately (no save).
    CommandReboot,
    /// Save current settings to flash, then reboot.
    CommandSaveSettings,
    /// Enter DFU (firmware update) bootloader mode.
    CommandDfuMode,
    /// Set current wheel position as the center reference.
    CommandResetCenter,
    /// Direct force override packet.
    DataOverrideData,
    /// Firmware activation / license key packet.
    DataFirmwareActivationData,
    /// Single setting field write packet.
    DataSettingsFieldData,
}

impl ReportData {
    /// The byte that stands for this value on the wire.
    pub open spec fn spec_code(self) -> u8 {
        match self {
            ReportData::CommandReboot => 0x01,
            ReportData::CommandSaveSettings => 0x02,
            ReportData::CommandDfuMode => 0x03,
            ReportData::CommandResetCenter => 0x04,
            ReportData::DataOverrideData => 0x10,
            ReportData::DataFirmwareActivationData => 0x13,
            ReportData::DataSettingsFieldData => 0x14,
        }
    }

    /// The byte that stands for this value on the wire.
    #[verifier::when_used_as_spec(spec_code)]
    pub fn code(self) -> (r: u8)
        ensures
            r == self.spec_code(),
    {
        match self {
            ReportData::CommandReboot => 0x01,
            ReportData::CommandSaveSettings => 0x02,
            ReportData::CommandDfuMode => 0x03,
            ReportData::CommandResetCenter => 0x04,
            ReportData::DataOverrideData => 0x10,
            ReportData::DataFirmwareActivationData => 0x13,
            ReportData::DataSettingsFieldData => 0x14,
        }
    }
}

/// HID report type identifiers.
///
/// Several values are shared across input, output and feature categories.
#[derive(Debug, Clone, Copy, PartialEq, Eq, Structural)]
pub enum ReportType {
    /// Standard HID joystick input report.
    JoystickInput,
    /// PID set-effect output report.
    SetEffect,
    /// PID set-envelope output report.
    SetEnvelope,
    /// PID set-condition output report.
    SetCondition,
    /// PID set-periodic output report.
    SetPeriodic,
    /// PID set-constant-force output report.
    SetConstantForce,
    /// PID set-ramp-force output report.
    SetRampForce,
    /// PID effect-operation output report.
    EffectOperation,
    /// PID block-free output report.
    PIDBlockFree,
    /// PID device-control output report.
    PIDDeviceControl,
    /// PID device-gain output report.
    DeviceGain,
    /// Hardware settings feature report.
    HardwareSettingsFeature,
    /// Effect settings feature report.
    EffectSettingsFeature,
    /// Firmware license feature report.
    FirmwareLicenseFeature,
    /// GPIO extension settings feature report.
    GpioSettingsFeature,
    /// ADC extension settings feature report.
    AdcSettingsFeature,
    /// Vendor generic input/output report used for all custom commands.
    GenericInputOutput,
}

impl ReportType {
    /// The byte that stands for this value on the wire.
    pub open spec fn spec_code(self) -> u8 {
        match self {
            ReportType::JoystickInput => 0x01,
            ReportType::SetEffect => 0x11,
            ReportType::SetEnvelope => 0x12,
            ReportType::SetCondition => 0x13,
            ReportType::SetPeriodic => 0x14,
            ReportType::SetConstantForce => 0x15,
            ReportType::SetRampForce => 0x16,
            ReportType::EffectOperation => 0x1a,
            ReportType::PIDBlockFree => 0x1b,
            ReportType::PIDDeviceControl => 0x1c,
            ReportType::DeviceGain => 0x1d,
            ReportType::HardwareSettingsFeature => 0x21,
            ReportType::EffectSettingsFeature => 0x22,
            ReportType::FirmwareLicenseFeature => 0x25,
            ReportType::GpioSettingsFeature => 0xa1,
            ReportType::AdcSettingsFeature => 0xa2,
            ReportType::GenericInputOutput => 0xa3,
        }
    }

    /// The byte that stands for this value on the wire.
    #[verifier::when_used_as_spec(spec_code)]
    pub fn code(self) -> (r: u8)
        ensures
            r == self.spec_code(),
    {
        match self {
            ReportType::JoystickInput => 0x01,
            ReportType::SetEffect => 0x11,
            ReportType::SetEnvelope => 0x12,
            ReportType::SetCondition => 0x13,
            ReportType::SetPeriodic => 0x14,
            ReportType::SetConstantForce => 0x15,
            ReportType::SetRampForce => 0x16,
            ReportType::EffectOperation => 0x1a,
            ReportType::PIDBlockFree => 0x1b,
            ReportType::PIDDeviceControl => 0x1c,
            ReportType::DeviceGain => 0x1d,
            ReportType::HardwareSettingsFeature => 0x21,
            ReportType::EffectSettingsFeature => 0x22,
            ReportType::FirmwareLicenseFeature => 0x25,
            ReportType::GpioSettingsFeature => 0xa1,
            ReportType::AdcSettingsFeature => 0xa2,
            ReportType::GenericInputOutput => 0xa3,
        }
    }
}

/// Device setting field identifiers.
#[derive(Debug, Clone, Copy, PartialEq, Eq, Hash, Structural)]
pub enum SettingField {
    /// DirectX constant force direction multiplier (`-1` or `+1`).
    DirectXConstantDirection,
    /// DirectX spring strength (0-100%).
    DirectXSpringStrength,
    /// DirectX constant strength (0-100%).
    DirectXConstantStrength,
    /// DirectX periodic strength (0-100%).
    DirectXPeriodicStrength,
    /// Overall effect strength scaling (0-100%).
    TotalEffectStrength,
    /// Wheel motion range in degrees (e.g. 900 for a 900 degree range).
    MotionRange,
    /// Soft-stop spring strength (0-100%).
    SoftStopStrength,
    /// Extra angular range beyond `MotionRange` used for soft-stop (degrees).
    SoftStopRange,
    /// Passive damping applied at all times (0-100%).
    StaticDampeningStrength,
    /// Damping strength inside the soft-stop zone (0-100%).
    SoftStopDampeningStrength,
    /// Master force-feedback enable (`0` = off, `1` = on).
    ForceEnabled,
    /// Constant debug torque output (used for tuning, 0-100%).
    DebugTorque,
    /// Current-sense amplifier gain. See [`AmplifierGain`].
    AmplifierGain,
    /// Motor calibration sequence magnitude (0-100%).
    CalibrationMagnitude,
    /// Motor calibration sequence speed (0-100%).
    CalibrationSpeed,
    /// Overall power limit (0-100%).
    PowerLimit,
    /// Regenerative braking limit (0-100%).
    BrakingLimit,
    /// Position IIR smoothing factor (0-100).
    PositionSmoothing,
    /// Speed estimation buffer length.
    SpeedBufferSize,
    /// Encoder direction multiplier (`-1` or `+1`).
    EncoderDirection,
    /// Motor force direction multiplier (`-1` or `+1`).
    ForceDirection,
    /// Number of motor pole-pairs.
    PolePairs,
    /// Encoder counts per revolution.
    EncoderCPR,
    /// PID proportional gain.
    PGain,
    /// PID integral gain.
    IGain,
    /// GPIO extension mode. See [`ExtensionMode`].
    ExtensionMode,
    /// GPIO pin function (indexed per pin). See [`PinMode`].
    PinMode,
    /// GPIO button logic (indexed per button). See [`ButtonMode`].
    ButtonMode,
    /// SPI communication mode. See [`SpiMode`].
    SpiMode,
    /// SPI CS latch polarity. See [`SpiLatchMode`].
    SpiLatchMode,
    /// SPI CS latch delay in microseconds.
    SpiLatchDelay,
    /// SPI clock pulse length in microseconds.
    SpiClkPulseLength,
    /// ADC axis minimum dead-zone (raw units, indexed per axis).
    AdcMinDeadZone,
    /// ADC axis maximum dead-zone (raw units, indexed per axis).
    AdcMaxDeadZone,
    /// Raw % threshold at which the ADC axis triggers its low virtual button (indexed per axis).
    AdcToButtonLow,
    /// Raw % threshold at which the ADC axis triggers its high virtual button (indexed per axis).
    AdcToButtonHigh,
    /// ADC axis IIR smoothing factor (indexed per axis).
    AdcSmoothing,
    /// ADC axis inversion flag (`0` or `1`, indexed per axis).
    AdcInvert,
    /// Auto-reset center when the encoder Z-pulse fires (`0` or `1`).
    ResetCenterOnZ0,
    /// Integrated (position-proportional) spring strength (0-100%).
    IntegratedSpringStrength,
}

impl SettingField {
    /// The byte that stands for this value on the wire.
    pub open spec fn spec_code(self) -> u8 {
        match self {
            SettingField::DirectXConstantDirection => 0x00,
            SettingField::DirectXSpringStrength => 0x01,
            SettingField::DirectXConstantStrength => 0x02,
            SettingField::DirectXPeriodicStrength => 0x03,
            SettingField::TotalEffectStrength => 0x04,
            SettingField::MotionRange => 0x05,
            SettingField::SoftStopStrength => 0x06,
            SettingField::SoftStopRange => 0x07,
            SettingField::StaticDampeningStrength => 0x08,
            SettingField::SoftStopDampeningStrength => 0x09,
            SettingField::ForceEnabled => 0x0b,
            SettingField::DebugTorque => 0x0c,
            SettingField::AmplifierGain => 0x0d,
            SettingField::CalibrationMagnitude => 0x0f,
            SettingField::CalibrationSpeed => 0x10,
            SettingField::PowerLimit => 0x11,
            SettingField::BrakingLimit => 0x12,
            SettingField::PositionSmoothing => 0x13,
            SettingField::SpeedBufferSize => 0x14,
            SettingField::EncoderDirection => 0x15,
            SettingField::ForceDirection => 0x16,
            SettingField::PolePairs => 0x17,
            SettingField::EncoderCPR => 0x18,
            SettingField::PGain => 0x19,
            SettingField::IGain => 0x1a,
            SettingField::ExtensionMode => 0x1b,
            SettingField::PinMode => 0x1c,
            SettingField::ButtonMode => 0x1d,
            SettingField::SpiMode => 0x1e,
            SettingField::SpiLatchMode => 0x1f,
            SettingField::SpiLatchDelay => 0x20,
            SettingField::SpiClkPulseLength => 0x21,
            SettingField::AdcMinDeadZone => 0x22,
            SettingField::AdcMaxDeadZone => 0x23,
            SettingField::AdcToButtonLow => 0x24,
            SettingField::AdcToButtonHigh => 0x25,
            SettingField::AdcSmoothing => 0x26,
            SettingField::AdcInvert => 0x27,
            SettingField::ResetCenterOnZ0 => 0x29,
            SettingField::IntegratedSpringStrength => 0x2b,
        }
    }

    /// The byte that stands for this value on the wire.
    #[verifier::when_used_as_spec(spec_code)]
    pub fn code(self) -> (r: u8)
        ensures
            r == self.spec_code(),
    {
        match self {
            SettingField::DirectXConstantDirection => 0x00,
            SettingField::DirectXSpringStrength => 0x01,
            SettingField::DirectXConstantStrength => 0x02,
            SettingField::DirectXPeriodicStrength => 0x03,
            SettingField::TotalEffectStrength => 0x04,
            SettingField::MotionRange => 0x05,
            SettingField::SoftStopStrength => 0x06,
            SettingField::SoftStopRange => 0x07,
            SettingField::StaticDampeningStrength => 0x08,
            SettingField::SoftStopDampeningStrength => 0x09,
            SettingField::ForceEnabled => 0x0b,
            SettingField::DebugTorque => 0x0c,
            SettingField::AmplifierGain => 0x0d,
            SettingField::CalibrationMagnitude => 0x0f,
            SettingField::CalibrationSpeed => 0x10,
            SettingField::PowerLimit => 0x11,
            SettingField::BrakingLimit => 0x12,
            SettingField::PositionSmoothing => 0x13,
            SettingField::SpeedBufferSize => 0x14,
            SettingField::EncoderDirection => 0x15,
            SettingField::ForceDirection => 0x16,
            SettingField::PolePairs => 0x17,
            SettingField::EncoderCPR => 0x18,
            SettingField::PGain => 0x19,
            SettingField::IGain => 0x1a,
            SettingField::ExtensionMode => 0x1b,
            SettingField::PinMode => 0x1c,
            SettingField::ButtonMode => 0x1d,
            SettingField::SpiMode => 0x1e,
            SettingField::SpiLatchMode => 0x1f,
            SettingField::SpiLatchDelay => 0x20,
            SettingField::SpiClkPulseLength => 0x21,
            SettingField::AdcMinDeadZone => 0x22,
            SettingField::AdcMaxDeadZone => 0x23,
            SettingField::AdcToButtonLow => 0x24,
            SettingField::AdcToButtonHigh => 0x25,
            SettingField::AdcSmoothing => 0x26,
            SettingField::AdcInvert => 0x27,
            SettingField::ResetCenterOnZ0 => 0x29,
            SettingField::IntegratedSpringStrength => 0x2b,
        }
    }
}

/// Binary field type identifiers for encoding setting values in HID reports.
#[derive(Debug, Clone, Copy, PartialEq, Eq, Structural)]
pub enum FieldType {
    /// Signed 8-bit integer.
    Int8,
    /// Unsigned 8-bit integer.
    Uint8,
    /// Signed 16-bit little-endian integer.
    Int16,
    /// Unsigned 16-bit little-endian integer.
    Uint16,
    /// Signed 32-bit little-endian integer.
    Int32,
    /// Unsigned 32-bit little-endian integer.
    Uint32,
    /// 32-bit IEEE 754 little-endian float.
    Float32,
}

/// The wire type of each setting field, as laid out in the device's packed settings structs.
pub open spec fn spec_field_type_for(field: SettingField) -> FieldType {
    match field {
        SettingField::DirectXConstantDirection => FieldType::Int8,
        SettingField::DirectXSpringStrength => FieldType::Uint8,
        SettingField::DirectXConstantStrength => FieldType::Uint8,
        SettingField::DirectXPeriodicStrength => FieldType::Uint8,
        SettingField::TotalEffectStrength => FieldType::Uint8,
        SettingField::MotionRange => FieldType::Uint16,
        SettingField::SoftStopStrength => FieldType::Uint8,
        SettingField::SoftStopRange => FieldType::Uint8,
        SettingField::StaticDampeningStrength => FieldType::Uint16,
        SettingField::SoftStopDampeningStrength => FieldType::Uint16,
        SettingField::ForceEnabled => FieldType::Uint8,
        SettingField::DebugTorque => FieldType::Uint8,
        SettingField::AmplifierGain => FieldType::Uint8,
        SettingField::CalibrationMagnitude => FieldType::Uint8,
        SettingField::CalibrationSpeed => FieldType::Uint8,
        SettingField::PowerLimit => FieldType::Uint8,
        SettingField::BrakingLimit => FieldType::Uint8,
        SettingField::PositionSmoothing => FieldType::Uint8,
        SettingField::SpeedBufferSize => FieldType::Uint8,
        SettingField::EncoderDirection => FieldType::Int8,
        SettingField::ForceDirection => FieldType::Int8,
        SettingField::PolePairs => FieldType::Uint8,
        SettingField::EncoderCPR => FieldType::Uint16,
        SettingField::PGain => FieldType::Uint8,
        SettingField::IGain => FieldType::Uint16,
        SettingField::ExtensionMode => FieldType::Uint8,
        SettingField::PinMode => FieldType::Uint8,
        SettingField::ButtonMode => FieldType::Uint8,
        SettingField::SpiMode => FieldType::Uint8,
        SettingField::SpiLatchMode => FieldType::Uint8,
        SettingField::SpiLatchDelay => FieldType::Uint8,
        SettingField::SpiClkPulseLength => FieldType::Uint8,
        SettingField::AdcMinDeadZone => FieldType::Uint16,
        SettingField::AdcMaxDeadZone => FieldType::Uint16,
        SettingField::AdcToButtonLow => FieldType::Uint8,
        SettingField::AdcToButtonHigh => FieldType::Uint8,
        SettingField::AdcSmoothing => FieldType::Uint8,
        SettingField::AdcInvert => FieldType::Uint8,
        SettingField::ResetCenterOnZ0 => FieldType::Uint8,
        SettingField::IntegratedSpringStrength => FieldType::Uint8,
    }
}

/// Returns the [`FieldType`] for a given [`SettingField`].
///
/// The map follows the packed settings structs of the device firmware.
#[verifier::when_used_as_spec(spec_field_type_for)]
pub fn field_type_for(field: SettingField) -> (r: FieldType)
    ensures
        r == spec_field_type_for(field),
{
    match field {
        SettingField::DirectXConstantDirection => FieldType::Int8,
        SettingField::DirectXSpringStrength => FieldType::Uint8,
        SettingField::DirectXConstantStrength => FieldType::Uint8,
        SettingField::DirectXPeriodicStrength => FieldType::Uint8,
        SettingField::TotalEffectStrength => FieldType::Uint8,
        SettingField::MotionRange => FieldType::Uint16,
        SettingField::SoftStopStrength => FieldType::Uint8,
        SettingField::SoftStopRange => FieldType::Uint8,
        SettingField::StaticDampeningStrength => FieldType::Uint16,
        SettingField::SoftStopDampeningStrength => FieldType::Uint16,
        SettingField::ForceEnabled => FieldType::Uint8,
        SettingField::DebugTorque => FieldType::Uint8,
        SettingField::AmplifierGain => FieldType::Uint8,
        SettingField::CalibrationMagnitude => FieldType::Uint8,
        SettingField::CalibrationSpeed => FieldType::Uint8,
        SettingField::PowerLimit => FieldType::Uint8,
        SettingField::BrakingLimit => FieldType::Uint8,
        SettingField::PositionSmoothing => FieldType::Uint8,
        SettingField::SpeedBufferSize => FieldType::Uint8,
        SettingField::EncoderDirection => FieldType::Int8,
        SettingField::ForceDirection => FieldType::Int8,
        SettingField::PolePairs => FieldType::Uint8,
        SettingField::EncoderCPR => FieldType::Uint16,
        SettingField::PGain => FieldType::Uint8,
        SettingField::IGain => FieldType::Uint16,
        SettingField::ExtensionMode => FieldType::Uint8,
        SettingField::PinMode => FieldType::Uint8,
        SettingField::ButtonMode => FieldType::Uint8,
        SettingField::SpiMode => FieldType::Uint8,
        SettingField::SpiLatchMode => FieldType::Uint8,
        SettingField::SpiLatchDelay => FieldType::Uint8,
        SettingField::SpiClkPulseLength => FieldType::Uint8,
        SettingField::AdcMinDeadZone => FieldType::Uint16,
        SettingField::AdcMaxDeadZone => FieldType::Uint16,
        SettingField::AdcToButtonLow => FieldType::Uint8,
        SettingField::AdcToButtonHigh => FieldType::Uint8,
        SettingField::AdcSmoothing => FieldType::Uint8,
        SettingField::AdcInvert => FieldType::Uint8,
        SettingField::ResetCenterOnZ0 => FieldType::Uint8,
        SettingField::IntegratedSpringStrength => FieldType::Uint8,
    }
}

/// Every setting field travels as an 8-bit or an unsigned 16-bit value: none of the
/// wider or floating-point wire types occurs in the map.
pub proof fn lemma_field_types_are_narrow(field: SettingField)
    ensures
        field_type_for(field) == FieldType::Int8 || field_type_for(field) == FieldType::Uint8
            || field_type_for(field) == FieldType::Uint16,
{
}

/// Distinct setting fields have distinct wire codes.
pub proof fn lemma_setting_codes_distinct(a: SettingField, b: SettingField)
    requires
        a != b,
    ensures
        a.code() != b.code(),
{
}

/// The wire byte of every [`ExtensionMode`] value, as the device protocol fixes it; distinct
/// values have distinct bytes.
pub proof fn lemma_extension_mode_codes(a: ExtensionMode, b: ExtensionMode)
    ensures
        ExtensionMode::Standalone.code() == 0x00,
        ExtensionMode::Custom.code() == 0x01,
        a != b ==> a.code() != b.code(),
{
}

/// The wire byte of every [`PinMode`] value, as the device protocol fixes it; distinct
/// values have distinct bytes.
pub proof fn lemma_pin_mode_codes(a: PinMode, b: PinMode)
    ensures
        PinMode::Disabled.code() == 0x00,
        PinMode::Gpio.code() == 0x01,
        PinMode::Analog.code() == 0x02,
        PinMode::SpiCs.code() == 0x03,
        PinMode::SpiSck.code() == 0x04,
        PinMode::SpiMiso.code() == 0x05,
        PinMode::EnableEffects.code() == 0x06,
        PinMode::CenterReset.code() == 0x07,
        PinMode::BrakingPwm.code() == 0x08,
        PinMode::EffectLed.code() == 0x09,
        PinMode::Reboot.code() == 0x0a,
        a != b ==> a.code() != b.code(),
{
}

/// The wire byte of every [`ButtonMode`] value, as the device protocol fixes it; distinct
/// values have distinct bytes.
pub proof fn lemma_button_mode_codes(a: ButtonMode, b: ButtonMode)
    ensures
        ButtonMode::Disabled.code() == 0x00,
        ButtonMode::Normal.code() == 0x01,
        ButtonMode::Inverted.code() == 0x02,
        ButtonMode::Pulse.code() == 0x03,
        ButtonMode::PulseInverted.code() == 0x04,
        a != b ==> a.code() != b.code(),
{
}

/// The wire byte of every [`AmplifierGain`] value, as the device protocol fixes it; distinct
/// values have distinct bytes.
pub proof fn lemma_amplifier_gain_codes(a: AmplifierGain, b: AmplifierGain)
    ensures
        AmplifierGain::Gain80.code() == 0x00,
        AmplifierGain::Gain40.code() == 0x01,
        AmplifierGain::Gain20.code() == 0x02,
        AmplifierGain::Gain10.code() == 0x03,
        a != b ==> a.code() != b.code(),
{
}

/// The wire byte of every [`SpiMode`] value, as the device protocol fixes it; distinct
/// values have distinct bytes.
pub proof fn lemma_spi_mode_codes(a: SpiMode, b: SpiMode)
    ensures
        SpiMode::Mode0.code() == 0x00,
        SpiMode::Mode1.code() == 0x01,
        SpiMode::Mode2.code() == 0x02,
        SpiMode::Mode3.code() == 0x03,
        a != b ==> a.code() != b.code(),
{
}

/// The wire byte of every [`SpiLatchMode`] value, as the device protocol fixes it; distinct
/// values have distinct bytes.
pub proof fn lemma_spi_latch_mode_codes(a: SpiLatchMode, b: SpiLatchMode)
    ensures
        SpiLatchMode::LatchUp.code() == 0x00,
        SpiLatchMode::LatchDown.code() == 0x01,
        a != b ==> a.code() != b.code(),
{
}

/// The wire byte of every [`ReportData`] value, as the device protocol fixes it; distinct
/// values have distinct bytes.
pub proof fn lemma_report_data_codes(a: ReportData, b: ReportData)
    ensures
        ReportData::CommandReboot.code() == 0x01,
        ReportData::CommandSaveSettings.code() == 0x02,
        ReportData::CommandDfuMode.code() == 0x03,
        ReportData::CommandResetCenter.code() == 0x04,
        ReportData::DataOverrideData.code() == 0x10,
        ReportData::DataFirmwareActivationData.code() == 0x13,
        ReportData::DataSettingsFieldData.code() == 0x14,
        a != b ==> a.code() != b.code(),
{
}

/// The wire byte of every [`ReportType`] value, as the device protocol fixes it; distinct
/// values have distinct bytes.
pub proof fn lemma_report_type_codes(a: ReportType, b: ReportType)
    ensures
        ReportType::JoystickInput.code() == 0x01,
        ReportType::SetEffect.code() == 0x11,
        ReportType::SetEnvelope.code() == 0x12,
        ReportType::SetCondition.code() == 0x13,
        ReportType::SetPeriodic.code() == 0x14,
        ReportType::SetConstantForce.code() == 0x15,
        ReportType::SetRampForce.code() == 0x16,
        ReportType::EffectOperation.code() == 0x1a,
        ReportType::PIDBlockFree.code() == 0x1b,
        ReportType::PIDDeviceControl.code() == 0x1c,
        ReportType::DeviceGain.code() == 0x1d,
        ReportType::HardwareSettingsFeature.code() == 0x21,
        ReportType::EffectSettingsFeature.code() == 0x22,
        ReportType::FirmwareLicenseFeature.code() == 0x25,
        ReportType::GpioSettingsFeature.code() == 0xa1,
        ReportType::AdcSettingsFeature.code() == 0xa2,
        ReportType::GenericInputOutput.code() == 0xa3,
        a != b ==> a.code() != b.code(),
{
}

/// The wire byte of every [`SettingField`] value, as the device protocol fixes it; distinct
/// values have distinct bytes.
pub proof fn lemma_setting_field_codes(a: SettingField, b: SettingField)
    ensures
        SettingField::DirectXConstantDirection.code() == 0x00,
        SettingField::DirectXSpringStrength.code() == 0x01,
        SettingField::DirectXConstantStrength.code() == 0x02,
        SettingField::DirectXPeriodicStrength.code() == 0x03,
        SettingField::TotalEffectStrength.code() == 0x04,
        SettingField::MotionRange.code() == 0x05,
        SettingField::SoftStopStrength.code() == 0x06,
        SettingField::SoftStopRange.code() == 0x07,
        SettingField::StaticDampeningStrength.code() == 0x08,
        SettingField::SoftStopDampeningStrength.code() == 0x09,
        SettingField::ForceEnabled.code() == 0x0b,
        SettingField::DebugTorque.code() == 0x0c,
        SettingField::AmplifierGain.code() == 0x0d,
        SettingField::CalibrationMagnitude.code() == 0x0f,
        SettingField::CalibrationSpeed.code() == 0x10,
        SettingField::PowerLimit.code() == 0x11,
        SettingField::BrakingLimit.code() == 0x12,
        SettingField::PositionSmoothing.code() == 0x13,
        SettingField::SpeedBufferSize.code() == 0x14,
        SettingField::EncoderDirection.code() == 0x15,
        SettingField::ForceDirection.code() == 0x16,
        SettingField::PolePairs.code() == 0x17,
        SettingField::EncoderCPR.code() == 0x18,
        SettingField::PGain.code() == 0x19,
        SettingField::IGain.code() == 0x1a,
        SettingField::ExtensionMode.code() == 0x1b,
        SettingField::PinMode.code() == 0x1c,
        SettingField::ButtonMode.code() == 0x1d,
        SettingField::SpiMode.code() == 0x1e,
        SettingField::SpiLatchMode.code() == 0x1f,
        SettingField::SpiLatchDelay.code() == 0x20,
        SettingField::SpiClkPulseLength.code() == 0x21,
        SettingField::AdcMinDeadZone.code() == 0x22,
        SettingField::AdcMaxDeadZone.code() == 0x23,
        SettingField::AdcToButtonLow.code() == 0x24,
        SettingField::AdcToButtonHigh.code() == 0x25,
        SettingField::AdcSmoothing.code() == 0x26,
        SettingField::AdcInvert.code() == 0x27,
        SettingField::ResetCenterOnZ0.code() == 0x29,
        SettingField::IntegratedSpringStrength.code() == 0x2b,
        a != b ==> a.code() != b.code(),
{
}

/// The wire type of each setting field follows the device's packed settings structs: the
/// three direction multipliers are signed bytes, the ranges, dampening strengths, encoder
/// resolution, integral gain and ADC dead zones are unsigned 16-bit, and every other field
/// is an unsigned byte.
pub proof fn lemma_field_type_table(field: SettingField)
    ensures
        (field_type_for(field) == FieldType::Int8) <==> (field == SettingField::DirectXConstantDirection
            || field == SettingField::EncoderDirection
            || field == SettingField::ForceDirection),
        (field_type_for(field) == FieldType::Uint16) <==> (field == SettingField::MotionRange
            || field == SettingField::StaticDampeningStrength
            || field == SettingField::SoftStopDampeningStrength
            || field == SettingField::EncoderCPR
            || field == SettingField::IGain
            || field == SettingField::AdcMinDeadZone
            || field == SettingField::AdcMaxDeadZone),
        (field_type_for(field) == FieldType::Uint8) <==> !(field == SettingField::DirectXConstantDirection
            || field == SettingField::EncoderDirection
            || field == SettingField::ForceDirection
            || field == SettingField::MotionRange
            || field == SettingField::StaticDampeningStrength
            || field == SettingField::SoftStopDampeningStrength
            || field == SettingField::EncoderCPR
            || field == SettingField::IGain
            || field == SettingField::AdcMinDeadZone
            || field == SettingField::AdcMaxDeadZone),
{
}

} // verus!
