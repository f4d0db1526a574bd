//! The ports of the library: the serial connection that it is given, and the
//! radio control that it offers.

pub mod radio;
pub mod serial;

pub use radio::RadioControl;
pub use serial::{SerialConnection, SerialFactory};
