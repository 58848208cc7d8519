//! Wire-protocol logic: little-endian byte codecs, the struct reader, report builders,
//! report parsers and the license key parser.

pub mod bytes;
pub mod reader;
pub mod buffers;
pub mod reports;
pub mod license;
