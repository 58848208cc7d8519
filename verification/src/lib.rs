//! Report encoding, report decoding and session logic for the FFBeast wheel controller.
use vstd::prelude::*;

pub mod enums;
pub mod error;
pub mod protocol;
pub mod types;
pub mod session;

verus! {

/// USB Vendor ID for FFBeast devices.
pub const VID: u16 = 1115;

/// USB Product ID for FFBeast wheel controllers.
pub const PID: u16 = 22999;

/// Size of HID reports in bytes.
pub const REPORT_SIZE: usize = 64;

} // verus!

pub use enums::{
    field_type_for, AmplifierGain, ButtonMode, ExtensionMode, FieldType, PinMode, ReportData,
    ReportType, SettingField, SpiLatchMode, SpiMode,
};
pub use error::WheelError;
pub use protocol::reader::StructReader;
pub use session::WheelSession;
pub use types::{
    AdcSettings, DeviceSettings, DeviceState, DirectControl, EffectSettings, FirmwareLicense,
    FirmwareVersion, GpioSettings, HardwareSettings,
};
