//! Plain descriptions of devices.

use vstd::prelude::*;

verus! {

/// An audio device as the operating system lists it.
#[derive(Debug)]
pub struct AudioDeviceInfo {
    /// The name by which the device is opened.
    pub id: String,
    /// The name shown to the operator.
    pub name: String,
    /// Whether the device captures (true) or plays (false).
    pub is_input: bool,
    /// Whether the device is the system's default in its direction.
    pub is_default: bool,
}

/// A serial port as the operating system lists it.
#[derive(Debug)]
pub struct SerialPortInfo {
    /// The name by which the port is opened.
    pub name: String,
    /// The kind of port, for display.
    pub port_type: String,
}

impl Clone for AudioDeviceInfo {
    fn clone(&self) -> (copy: Self)
        ensures
            copy == *self,
    {
        AudioDeviceInfo {
            id: self.id.clone(),
            name: self.name.clone(),
            is_input: self.is_input,
            is_default: self.is_default,
        }
    }
}

impl Clone for SerialPortInfo {
    fn clone(&self) -> (copy: Self)
        ensures
            copy == *self,
    {
        SerialPortInfo { name: self.name.clone(), port_type: self.port_type.clone() }
    }
}

/// Transmit power, in watts, of a configuration that names none.
pub fn default_tx_power_watts() -> (watts: u32)
    ensures
        watts == 25,
{
    25
}

} // verus!
