//! The bit layer of the receiver: from the signs of the symbols to characters.
//!
//! A receiver cannot tell a carrier from its reverse, so bits are read from
//! the change between one symbol and the next. Where no character has come for
//! too long, the detector takes the opposite reading of every bit.

use super::varicode::{idle, step, DecoderState, VaricodeDecoder};
use vstd::prelude::*;

verus! {

/// Bits without a character after which the reading of the bits is inverted.
pub const PHASE_AMBIGUITY_THRESHOLD: usize = 100;

/// What the detector holds between two symbols.
pub struct DetectorState {
    /// The state of the character decoder.
    pub decoder: DecoderState,
    /// Bits taken since the last character came out.
    pub bits_without_char: nat,
    /// Whether bits are read inverted.
    pub invert_bits: bool,
}

/// The state of a detector that has seen nothing.
pub open spec fn fresh() -> DetectorState {
    DetectorState { decoder: idle(), bits_without_char: 0, invert_bits: false }
}

/// One symbol of detection. The bit is set where the symbol has the sign of
/// the symbol before it, and is inverted where the detector reads inverted. A
/// character that the bit completes comes out and restarts the count of bits
/// without one. Where the count passes the threshold, the detector inverts its
/// reading and starts again with an idle character decoder.
pub open spec fn detect(s: DetectorState, same_sign: bool) -> (DetectorState, Option<char>) {
    let bit = same_sign != s.invert_bits;
    let decoded = step(s.decoder, bit);
    if decoded.1 is Some {
        (
            DetectorState { decoder: decoded.0, bits_without_char: 0, invert_bits: s.invert_bits },
            decoded.1,
        )
    } else if s.bits_without_char + 1 > PHASE_AMBIGUITY_THRESHOLD {
        (DetectorState { decoder: idle(), bits_without_char: 0, invert_bits: !s.invert_bits }, None)
    } else {
        (
            DetectorState {
                decoder: decoded.0,
                bits_without_char: s.bits_without_char + 1,
                invert_bits: s.invert_bits,
            },
            None,
        )
    }
}

/// Differential bit detector with the character decoder behind it.
pub struct DifferentialDetector {
    varicode_decoder: VaricodeDecoder,
    bits_without_char: usize,
    invert_bits: bool,
}

impl View for DifferentialDetector {
    type V = DetectorState;

    closed spec fn view(&self) -> DetectorState {
        DetectorState {
            decoder: self.varicode_decoder@,
            bits_without_char: self.bits_without_char as nat,
            invert_bits: self.invert_bits,
        }
    }
}

impl DifferentialDetector {
    /// The count never passes the threshold: it starts again as soon as it
    /// would.
    #[verifier::type_invariant]
    spec fn bounded(&self) -> bool {
        self.bits_without_char <= PHASE_AMBIGUITY_THRESHOLD
    }

    /// A detector that has seen nothing.
    pub fn new() -> (detector: Self)
        ensures
            detector@ == fresh(),
    {
        DifferentialDetector {
            varicode_decoder: VaricodeDecoder::new(),
            bits_without_char: 0,
            invert_bits: false,
        }
    }

    /// Takes one symbol that passed the squelch, given as whether it has the
    /// sign of the symbol before it, and returns the character that it
    /// completes, if any.
    pub fn push_symbol(&mut self, same_sign: bool) -> (ch: Option<char>)
        ensures
            (final(self)@, ch) == detect(old(self)@, same_sign),
    {
        proof {
            use_type_invariant(&*self);
        }
        let bit = same_sign != self.invert_bits;
        let mut varicode_decoder = VaricodeDecoder::new();
        core::mem::swap(&mut varicode_decoder, &mut self.varicode_decoder);
        let ch = varicode_decoder.push_bit(bit);
        let invert_bits = self.invert_bits;
        let count: usize = self.bits_without_char;
        if ch.is_some() {
            *self = DifferentialDetector { varicode_decoder, bits_without_char: 0, invert_bits };
        } else if count + 1 > PHASE_AMBIGUITY_THRESHOLD {
            *self = DifferentialDetector {
                varicode_decoder: VaricodeDecoder::new(),
                bits_without_char: 0,
                invert_bits: !invert_bits,
            };
        } else {
            *self = DifferentialDetector {
                varicode_decoder,
                bits_without_char: count + 1,
                invert_bits,
            };
        }
        ch
    }

    /// Whether bits are read inverted at present.
    pub fn is_inverted(&self) -> (inverted: bool)
        ensures
            inverted == self@.invert_bits,
    {
        self.invert_bits
    }

    /// Bits taken since the last character came out.
    pub fn bits_without_char(&self) -> (count: usize)
        ensures
            count == self@.bits_without_char,
    {
        self.bits_without_char
    }

    /// Forgets everything: the character under way, the count of bits and the
    /// inverted reading. This is what a change of the carrier frequency does to
    /// the bit layer.
    pub fn reset(&mut self)
        ensures
            final(self)@ == fresh(),
    {
        *self = DifferentialDetector::new();
    }
}

impl Default for DifferentialDetector {
    fn default() -> (detector: Self)
        ensures
            detector@ == fresh(),
    {
        DifferentialDetector::new()
    }
}

} // verus!
