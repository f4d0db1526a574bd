//! Radios that the library drives.

pub mod ft991a;
pub mod mock_radio;
