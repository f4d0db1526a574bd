//! Character coding and the bit layer of the modem.

pub mod decoder;
pub mod encoder;
pub mod laws;
pub mod varicode;

pub use varicode::Varicode;
