//! Types shared by the whole library.

pub mod error;
pub mod types;

pub use error::{Psk31Error, Psk31Result};
pub use types::{AudioDeviceInfo, SerialPortInfo};
