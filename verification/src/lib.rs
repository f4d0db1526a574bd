//! The core of a BPSK-31 station: the varicode and bit layers of the modem and
//! the CAT control of a Yaesu FT-991A, verified with Verus.
//!
//! - [`modem`]: the varicode table and its streaming decoder, the bits and
//!   carrier phases of a transmission, and the differential detector of the
//!   receiver. Coding and decoding are proved to be inverse to each other.
//! - [`cat`]: CAT commands and replies, their wire format, and the session
//!   that exchanges them over a serial connection.
//! - [`adapters`]: the radio behind a session, kept inside the amateur bands.
//! - [`pipeline`]: the states of the audio threads, the playback of encoded
//!   samples and the framing of samples for the spectrum.
//! - [`ports`]: the serial connection that the library is given.
//! - [`config`], [`domain`], [`dsp`], [`text`]: profile names, errors and device
//!   descriptions, symbol shape, and strings.
//!
//! Time comes in from the caller, as milliseconds on a clock of its choice:
//! the library says how long to wait and never sleeps. Samples are floating
//! point and stay with the caller; the library takes what was decided on them.

pub mod adapters;
pub mod cat;
pub mod config;
pub mod domain;
pub mod dsp;
pub mod modem;
pub mod pipeline;
pub mod ports;
pub mod text;
