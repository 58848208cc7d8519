//! The error type returned by the fallible operations of the library.
use vstd::prelude::*;

verus! {

/// All errors that the report logic of the library can return.
#[derive(Debug, Clone)]
pub enum WheelError {
    /// No FFBeast wheel was found in the HID device list.
    DeviceNotFound,
    /// A report was shorter than the layout being read from it.
    BufferTooSmall {
        /// Minimum number of bytes required.
        expected: usize,
        /// Actual number of bytes available.
        got: usize,
    },
    /// The license key string did not match the expected format.
    InvalidLicense(String),
}

} // verus!
