//! The envelope of a symbol.
//!
//! A symbol that keeps the phase has full amplitude throughout. A symbol that
//! reverses the phase falls to nothing in its middle, where the reversal takes
//! place, and rises again.

use vstd::prelude::*;

verus! {

/// Which phase a sample of a symbol is sent with.
#[derive(Debug, Clone, Copy, PartialEq, Eq, Structural)]
pub enum Half {
    /// Before the middle: the phase of the symbol before.
    Falling,
    /// From the middle on: the phase of this symbol.
    Rising,
}

/// Shapes the symbols of a transmission.
pub struct RaisedCosineShaper {
    samples_per_symbol: usize,
}

impl RaisedCosineShaper {
    /// Samples in one symbol.
    pub closed spec fn length(&self) -> nat {
        self.samples_per_symbol as nat
    }

    /// A shaper for symbols of `samples_per_symbol` samples.
    pub fn new(samples_per_symbol: usize) -> (shaper: Self)
        ensures
            shaper.length() == samples_per_symbol,
    {
        RaisedCosineShaper { samples_per_symbol }
    }

    /// Samples in one symbol.
    pub fn samples_per_symbol(&self) -> (n: usize)
        ensures
            n == self.length(),
    {
        self.samples_per_symbol
    }

    /// The half of the symbol in which sample `index` lies: the reversal of a
    /// symbol that changes the phase takes place where the rising half begins.
    pub fn half_of(&self, index: usize) -> (half: Half)
        ensures
            half == if 2 * index < self.length() {
                Half::Falling
            } else {
                Half::Rising
            },
    {
        if index < self.samples_per_symbol && index < self.samples_per_symbol - index {
            Half::Falling
        } else {
            Half::Rising
        }
    }
}

} // verus!
