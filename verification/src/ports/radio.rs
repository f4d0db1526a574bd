//! The control of a radio, as the library offers it.

use crate::domain::error::Psk31Result;
use vstd::prelude::*;

verus! {

/// A radio: transmitter keying, frequency, mode and transmit power.
///
/// Every method that talks to the radio takes the time at which it is called,
/// in milliseconds on a clock of the caller's choice. Before such a call the
/// caller lets `pacing_delay_ms` pass.
pub trait RadioControl: Send {
    /// How many milliseconds the caller has to let pass, at time `now_ms`,
    /// before it calls a method that talks to the radio.
    fn pacing_delay_ms(&self, now_ms: u64) -> u64;

    /// Keys the transmitter.
    fn ptt_on(&mut self, now_ms: u64) -> Psk31Result<()>;

    /// Releases the transmitter.
    fn ptt_off(&mut self, now_ms: u64) -> Psk31Result<()>;

    /// Whether the transmitter is keyed.
    fn is_transmitting(&self) -> bool;

    /// The frequency of the radio, in Hz.
    fn get_frequency(&mut self, now_ms: u64) -> Psk31Result<u64>;

    /// Tunes the radio to `hz`.
    fn set_frequency(&mut self, hz: u64, now_ms: u64) -> Psk31Result<()>;

    /// The name of the operating mode, such as `USB` or `DATA-USB`.
    fn get_mode(&mut self, now_ms: u64) -> Psk31Result<String>;

    /// Selects an operating mode by its name.
    fn set_mode(&mut self, mode: &str, now_ms: u64) -> Psk31Result<()>;

    /// The transmit power, in watts.
    fn get_tx_power(&mut self, now_ms: u64) -> Psk31Result<u32>;

    /// Sets the transmit power, in watts.
    fn set_tx_power(&mut self, watts: u32, now_ms: u64) -> Psk31Result<()>;
}

} // verus!
