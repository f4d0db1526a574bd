//! The decisions of the audio threads, apart from the audio itself.

pub mod rx;
pub mod tx;
