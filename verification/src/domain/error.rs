//! The library's error type.

use crate::text::join2;
use vstd::prelude::*;

verus! {

/// What can go wrong, by the part of the system where it went wrong, with a
/// description for the operator.
#[derive(Debug, PartialEq, Eq)]
pub enum Psk31Error {
    /// Audio device enumeration, opening or streaming.
    Audio(String),
    /// I/O on the serial port.
    Serial(String),
    /// The CAT protocol: a refusal by the radio, a malformed reply, a value out
    /// of range.
    Cat(String),
    /// The modem.
    Modem(String),
    /// Configuration profiles.
    Config(String),
}

/// Result of an operation of this library.
pub type Psk31Result<T> = Result<T, Psk31Error>;

/// An error with its description as a character sequence.
pub enum Fault {
    Audio(Seq<char>),
    Serial(Seq<char>),
    Cat(Seq<char>),
    Modem(Seq<char>),
    Config(Seq<char>),
}

impl Fault {
    /// The full message: the kind of error, then its description.
    pub open spec fn text(self) -> Seq<char> {
        match self {
            Fault::Audio(detail) => "Audio error: "@ + detail,
            Fault::Serial(detail) => "Serial port error: "@ + detail,
            Fault::Cat(detail) => "CAT command error: "@ + detail,
            Fault::Modem(detail) => "Modem error: "@ + detail,
            Fault::Config(detail) => "Configuration error: "@ + detail,
        }
    }
}

impl View for Psk31Error {
    type V = Fault;

    open spec fn view(&self) -> Fault {
        match self {
            Psk31Error::Audio(detail) => Fault::Audio(detail@),
            Psk31Error::Serial(detail) => Fault::Serial(detail@),
            Psk31Error::Cat(detail) => Fault::Cat(detail@),
            Psk31Error::Modem(detail) => Fault::Modem(detail@),
            Psk31Error::Config(detail) => Fault::Config(detail@),
        }
    }
}

impl Psk31Error {
    /// The full message of the error.
    pub fn message(&self) -> (text: String)
        ensures
            text@ == self@.text(),
    {
        match self {
            Psk31Error::Audio(detail) => join2("Audio error: ", detail.as_str()),
            Psk31Error::Serial(detail) => join2("Serial port error: ", detail.as_str()),
            Psk31Error::Cat(detail) => join2("CAT command error: ", detail.as_str()),
            Psk31Error::Modem(detail) => join2("Modem error: ", detail.as_str()),
            Psk31Error::Config(detail) => join2("Configuration error: ", detail.as_str()),
        }
    }

    /// Whether the error came from the serial port itself. Such an error means
    /// that the hardware is gone and the radio has to be released.
    pub fn is_serial(&self) -> (serial: bool)
        ensures
            serial == (self@ is Serial),
    {
        match self {
            Psk31Error::Serial(_) => true,
            _ => false,
        }
    }
}

/// The view of a result: the view of its value, or of its error.
pub open spec fn outcome<T: View>(result: Psk31Result<T>) -> Result<T::V, Fault> {
    match result {
        Ok(value) => Ok(value@),
        Err(error) => Err(error@),
    }
}

} // verus!
