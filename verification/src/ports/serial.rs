//! The serial link to the radio.

use crate::domain::error::{Psk31Error, Psk31Result};
use crate::domain::types::SerialPortInfo;
use vstd::prelude::*;

verus! {

/// Baud rate at which the radio is opened unless a profile says otherwise.
pub const DEFAULT_BAUD_RATE: u32 = 38_400;

/// Time that one read waits for bytes before it returns 0, in milliseconds.
pub const READ_TIMEOUT_MS: u64 = 100;

/// An open serial connection.
///
/// Nothing is asked of an implementation beyond the signatures: the library
/// takes every result as it comes.
pub trait SerialConnection: Send {
    /// Writes bytes to the port and returns how many it took.
    fn write(&mut self, data: &[u8]) -> Psk31Result<usize>;

    /// Reads bytes into the front of `buffer` and returns how many came. A
    /// read that times out returns 0.
    fn read(&mut self, buffer: &mut [u8]) -> Psk31Result<usize>;

    /// Writes a command and reads once, unless the write fails: `read_follows`.
    fn write_read(&mut self, command: &str, response_buf: &mut [u8]) -> Psk31Result<usize> {
        match read_follows(self.write(command.as_bytes())) {
            Ok(()) => self.read(response_buf),
            Err(error) => Err(error),
        }
    }

    /// Closes the connection.
    fn close(&mut self) -> Psk31Result<()>;

    /// Whether the port is still connected.
    fn is_connected(&self) -> bool;
}

/// Lists and opens serial ports.
pub trait SerialFactory {
    /// The serial ports of the system.
    fn list_ports() -> Psk31Result<Vec<SerialPortInfo>>;

    /// Opens a port at a baud rate.
    fn open(port: &str, baud_rate: u32) -> Psk31Result<Box<dyn SerialConnection>>;
}

/// Whether a read follows a write that returned `written`: it does where the
/// write succeeded, however many bytes it took, and where the write failed its
/// error stands.
pub fn read_follows(written: Psk31Result<usize>) -> (go: Result<(), Psk31Error>)
    ensures
        go == match written {
            Ok(_) => Ok::<(), Psk31Error>(()),
            Err(error) => Err::<(), Psk31Error>(error),
        },
{
    match written {
        Ok(_) => Ok(()),
        Err(error) => Err(error),
    }
}

} // verus!
