//! A radio that exists in memory only, for work without hardware.

use crate::domain::error::Psk31Result;
use crate::ports::radio::RadioControl;
use vstd::prelude::*;
use vstd::string::*;

verus! {

/// Frequency of a new mock radio: the PSK-31 calling frequency on 20 m.
pub const DEFAULT_FREQ_HZ: u64 = 14_070_000;

/// Transmit power of a new mock radio, in watts.
pub const DEFAULT_TX_POWER_W: u32 = 25;

/// What a mock radio is set to.
pub struct MockState {
    pub frequency: u64,
    pub mode: Seq<char>,
    pub tx_power: u32,
    pub transmitting: bool,
}

/// A radio that takes every setting and gives it back when asked.
pub struct MockRadio {
    frequency: u64,
    mode: String,
    tx_power: u32,
    is_transmitting: bool,
}

impl View for MockRadio {
    type V = MockState;

    closed spec fn view(&self) -> MockState {
        MockState {
            frequency: self.frequency,
            mode: self.mode@,
            tx_power: self.tx_power,
            transmitting: self.is_transmitting,
        }
    }
}

impl MockRadio {
    /// A mock radio on the 20 m calling frequency, in DATA-USB, at 25 W, not
    /// transmitting.
    pub fn new() -> (radio: Self)
        ensures
            radio@ == (MockState {
                frequency: DEFAULT_FREQ_HZ,
                mode: "DATA-USB"@,
                tx_power: DEFAULT_TX_POWER_W,
                transmitting: false,
            }),
    {
        MockRadio {
            frequency: DEFAULT_FREQ_HZ,
            mode: String::from_str("DATA-USB"),
            tx_power: DEFAULT_TX_POWER_W,
            is_transmitting: false,
        }
    }
}

impl Default for MockRadio {
    fn default() -> (radio: Self)
        ensures
            radio@ == (MockState {
                frequency: DEFAULT_FREQ_HZ,
                mode: "DATA-USB"@,
                tx_power: DEFAULT_TX_POWER_W,
                transmitting: false,
            }),
    {
        MockRadio::new()
    }
}

impl RadioControl for MockRadio {
    /// A mock radio needs no time between two commands.
    fn pacing_delay_ms(&self, now_ms: u64) -> (delay: u64)
        ensures
            delay == 0,
    {
        0
    }

    /// Counts as transmitting from now on.
    fn ptt_on(&mut self, now_ms: u64) -> (result: Psk31Result<()>)
        ensures
            result is Ok,
            final(self)@ == (MockState { transmitting: true, ..old(self)@ }),
    {
        self.is_transmitting = true;
        Ok(())
    }

    /// Counts as idle from now on.
    fn ptt_off(&mut self, now_ms: u64) -> (result: Psk31Result<()>)
        ensures
            result is Ok,
            final(self)@ == (MockState { transmitting: false, ..old(self)@ }),
    {
        self.is_transmitting = false;
        Ok(())
    }

    /// Whether `ptt_on` was called last, and not `ptt_off`.
    fn is_transmitting(&self) -> (keyed: bool)
        ensures
            keyed == self@.transmitting,
    {
        self.is_transmitting
    }

    /// The frequency that was set last.
    fn get_frequency(&mut self, now_ms: u64) -> (result: Psk31Result<u64>)
        ensures
            result matches Ok(hz) && hz == old(self)@.frequency,
            final(self)@ == old(self)@,
    {
        Ok(self.frequency)
    }

    /// Takes any frequency: a mock radio knows no band plan.
    fn set_frequency(&mut self, hz: u64, now_ms: u64) -> (result: Psk31Result<()>)
        ensures
            result is Ok,
            final(self)@ == (MockState { frequency: hz, ..old(self)@ }),
    {
        self.frequency = hz;
        Ok(())
    }

    /// The mode that was set last.
    fn get_mode(&mut self, now_ms: u64) -> (result: Psk31Result<String>)
        ensures
            result matches Ok(name) && name@ == old(self)@.mode,
            final(self)@ == old(self)@,
    {
        Ok(self.mode.clone())
    }

    /// Takes any name: a mock radio knows no mode table.
    fn set_mode(&mut self, mode: &str, now_ms: u64) -> (result: Psk31Result<()>)
        ensures
            result is Ok,
            final(self)@ == (MockState { mode: mode@, ..old(self)@ }),
    {
        self.mode = String::from_str(mode);
        Ok(())
    }

    /// The power that was set last.
    fn get_tx_power(&mut self, now_ms: u64) -> (result: Psk31Result<u32>)
        ensures
            result matches Ok(watts) && watts == old(self)@.tx_power,
            final(self)@ == old(self)@,
    {
        Ok(self.tx_power)
    }

    /// Takes any power.
    fn set_tx_power(&mut self, watts: u32, now_ms: u64) -> (result: Psk31Result<()>)
        ensures
            result is Ok,
            final(self)@ == (MockState { tx_power: watts, ..old(self)@ }),
    {
        self.tx_power = watts;
        Ok(())
    }
}

} // verus!
