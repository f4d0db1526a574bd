//! The bit layer of the transmitter: from text to the bits and carrier phases of
//! a transmission.
//!
//! A `0` bit is sent as a reversal of the carrier phase in the middle of its
//! symbol, a `1` bit as a symbol without one.

use super::varicode::{code_bits, framed, framed_text, lemma_text_bits, zeros, Varicode};
use vstd::prelude::*;

verus! {

/// Samples in one symbol: 48 000 samples a second at 31.25 symbols a second.
pub const SAMPLES_PER_SYMBOL: usize = 1536;

/// Clear bits before the text, on which the receiver locks.
pub const PREAMBLE_BITS: usize = 32;

/// Clear bits after the text.
pub const POSTAMBLE_BITS: usize = 32;

/// The codepoints of the characters of `text` that have a code, in order.
pub open spec fn sendable(text: Seq<char>) -> Seq<u8>
    decreases text.len(),
{
    if text.len() == 0 {
        Seq::empty()
    } else if (text.last() as u32) < 128 {
        sendable(text.drop_last()).push(text.last() as u8)
    } else {
        sendable(text.drop_last())
    }
}

/// The bits of a transmission of `text`: the preamble, every character that
/// has a code, framed, and the postamble.
pub open spec fn message_bits(text: Seq<char>) -> Seq<bool> {
    zeros(PREAMBLE_BITS as nat) + framed_text(sendable(text)) + zeros(POSTAMBLE_BITS as nat)
}

/// The carrier phase of each symbol after its middle, for a carrier that
/// starts with phase `start`: `true` stands for the reversed phase. A clear bit
/// reverses the phase, a set bit keeps it.
pub open spec fn phases(bits: Seq<bool>, start: bool) -> Seq<bool>
    decreases bits.len(),
{
    if bits.len() == 0 {
        Seq::empty()
    } else {
        let front = phases(bits.drop_last(), start);
        let before = if front.len() == 0 {
            start
        } else {
            front.last()
        };
        front.push(before == bits.last())
    }
}

/// What a receiver that compares each symbol's phase with that of the symbol
/// before reads: a set bit where they are the same.
pub open spec fn detected(symbols: Seq<bool>, start: bool) -> Seq<bool> {
    Seq::new(
        symbols.len(),
        |k: int|
            symbols[k] == if k == 0 {
                start
            } else {
                symbols[k - 1]
            },
    )
}

/// Appends `count` clear bits.
fn push_zeros(bits: &mut Vec<bool>, count: usize)
    ensures
        final(bits)@ == old(bits)@ + zeros(count as nat),
{
    let mut i: usize = 0;
    while i < count
        invariant
            i <= count,
            bits@ == old(bits)@ + zeros(i as nat),
        decreases count - i,
    {
        bits.push(false);
        i += 1;
        assert(bits@ =~= old(bits)@ + zeros(i as nat));
    }
}

/// Appends every bit of `more`.
fn push_all(bits: &mut Vec<bool>, more: &Vec<bool>)
    ensures
        final(bits)@ == old(bits)@ + more@,
{
    let mut i: usize = 0;
    while i < more.len()
        invariant
            i <= more.len(),
            bits@ == old(bits)@ + more@.take(i as int),
        decreases more.len() - i,
    {
        bits.push(more[i]);
        i += 1;
        assert(bits@ =~= old(bits)@ + more@.take(i as int));
    }
    assert(more@.take(more.len() as int) =~= more@);
}

/// The bits of a transmission of `text`: 32 clear bits, then the code of each
/// character followed by two clear bits, then 32 clear bits. Characters
/// without a code are left out.
pub fn text_to_bits(text: &str) -> (bits: Vec<bool>)
    ensures
        bits@ == message_bits(text@),
{
    let mut bits: Vec<bool> = Vec::new();
    push_zeros(&mut bits, PREAMBLE_BITS);
    assert(bits@ =~= zeros(PREAMBLE_BITS as nat) + framed_text(sendable(text@.take(0))));
    for ch in it: text.chars()
        invariant
            it.seq() == text@,
            bits@ == zeros(PREAMBLE_BITS as nat) + framed_text(
                sendable(text@.take(it.index() as int)),
            ),
    {
        let ghost sofar = text@.take(it.index() as int);
        let ghost next = text@.take(it.index() + 1);
        proof {
            assert(next.drop_last() =~= sofar);
            assert(next.last() == ch);
        }
        match Varicode::encode(ch) {
            Some(code) => {
                let code_bits_now = Varicode::bits_from_str(code);
                proof {
                    lemma_text_bits(code_bits(ch as u8));
                    assert(sendable(next).drop_last() =~= sendable(sofar));
                }
                push_all(&mut bits, &code_bits_now);
                bits.push(false);
                bits.push(false);
                assert(bits@ =~= zeros(PREAMBLE_BITS as nat) + (framed_text(sendable(sofar))
                    + framed(ch as u8)));
            },
            None => {},
        }
    }
    assert(text@.take(text@.len() as int) =~= text@);
    push_zeros(&mut bits, POSTAMBLE_BITS);
    bits
}

/// The carrier phase of each symbol after its middle, for a carrier that
/// starts in the upright phase.
pub fn symbol_phases(bits: &[bool]) -> (symbols: Vec<bool>)
    ensures
        symbols@ == phases(bits@, false),
{
    let mut symbols: Vec<bool> = Vec::new();
    let mut phase = false;
    let mut i: usize = 0;
    while i < bits.len()
        invariant
            i <= bits.len(),
            symbols@ == phases(bits@.take(i as int), false),
            phase == if i == 0 {
                false
            } else {
                symbols@.last()
            },
            symbols@.len() == i,
        decreases bits.len() - i,
    {
        proof {
            assert(bits@.take(i + 1).drop_last() =~= bits@.take(i as int));
        }
        phase = phase == bits[i];
        symbols.push(phase);
        i += 1;
    }
    assert(bits@.take(bits.len() as int) =~= bits@);
    symbols
}

/// Samples in a transmission of `bit_count` bits, or `None` where the number
/// does not fit.
pub fn sample_count(bit_count: usize) -> (samples: Option<usize>)
    ensures
        match samples {
            Some(n) => n == bit_count * SAMPLES_PER_SYMBOL,
            None => bit_count * SAMPLES_PER_SYMBOL > usize::MAX,
        },
{
    if bit_count <= usize::MAX / SAMPLES_PER_SYMBOL {
        assert(bit_count * SAMPLES_PER_SYMBOL <= usize::MAX) by (nonlinear_arith)
            requires
                bit_count <= usize::MAX / SAMPLES_PER_SYMBOL,
                SAMPLES_PER_SYMBOL == 1536,
        ;
        Some(bit_count * SAMPLES_PER_SYMBOL)
    } else {
        assert(bit_count * SAMPLES_PER_SYMBOL > usize::MAX) by (nonlinear_arith)
            requires
                bit_count > usize::MAX / SAMPLES_PER_SYMBOL,
                SAMPLES_PER_SYMBOL == 1536,
        ;
        None
    }
}

/// Every phase sequence has one phase for each bit.
pub proof fn lemma_phases_len(bits: Seq<bool>, start: bool)
    ensures
        phases(bits, start).len() == bits.len(),
    decreases bits.len(),
{
    if bits.len() > 0 {
        lemma_phases_len(bits.drop_last(), start);
    }
}

/// Comparing each symbol's phase with the phase before it gives back the bits
/// that were sent.
pub proof fn lemma_differential_round_trip(bits: Seq<bool>, start: bool)
    ensures
        detected(phases(bits, start), start) == bits,
    decreases bits.len(),
{
    lemma_phases_len(bits, start);
    let symbols = phases(bits, start);
    if bits.len() > 0 {
        let front = bits.drop_last();
        lemma_differential_round_trip(front, start);
        lemma_phases_len(front, start);
        let before = phases(front, start);
        assert forall|k: int| 0 <= k < bits.len() implies detected(symbols, start)[k]
            == bits[k] by {
            if k < front.len() {
                assert(detected(before, start)[k] == front[k]);
                assert(symbols[k] == before[k]);
                if k > 0 {
                    assert(symbols[k - 1] == before[k - 1]);
                }
            }
        }
    }
    assert(detected(symbols, start) =~= bits);
}

} // verus!
