//! What the bit layers of transmitter and receiver promise of each other.

use super::decoder::{detect, fresh, DetectorState, PHASE_AMBIGUITY_THRESHOLD};
use super::encoder::{
    detected, lemma_differential_round_trip, message_bits, phases, sendable, POSTAMBLE_BITS,
    PREAMBLE_BITS,
};
use super::varicode::{
    as_chars, code_bits, code_word, emitted, framed, framed_text, idle, lemma_bits_lead,
    lemma_code_len, lemma_code_shape, lemma_lookup_code, lemma_spaced_bits, lookup,
    no_double_zero, step, zeros, DecoderState,
};
use vstd::prelude::*;

verus! {

/// Detection of a whole sequence of symbols: the final state and the
/// characters in the order in which they came out.
pub open spec fn detect_all(s: DetectorState, same_signs: Seq<bool>) -> (DetectorState, Seq<char>)
    decreases same_signs.len(),
{
    if same_signs.len() == 0 {
        (s, Seq::empty())
    } else {
        let first = detect(s, same_signs[0]);
        let rest = detect_all(first.0, same_signs.drop_first());
        (rest.0, emitted(first.1) + rest.1)
    }
}

/// A detector that reads upright, with a character decoder in state `decoder`
/// and `count` bits since the last character.
pub open spec fn upright(decoder: DecoderState, count: nat) -> DetectorState {
    DetectorState { decoder, bits_without_char: count, invert_bits: false }
}

/// The register and the pending clear bits after bits were taken in that end
/// no character: a clear bit at the end is still pending.
pub open spec fn settled(bits: Seq<bool>) -> DecoderState {
    if bits.len() > 0 && !bits.last() {
        DecoderState { register: bits.drop_last(), pending: 1 }
    } else {
        DecoderState { register: bits, pending: 0 }
    }
}

/// Detecting a sequence in two parts gives what detecting it at once gives.
pub proof fn lemma_detect_concat(s: DetectorState, a: Seq<bool>, b: Seq<bool>)
    ensures
        detect_all(s, a + b) == (
            detect_all(detect_all(s, a).0, b).0,
            detect_all(s, a).1 + detect_all(detect_all(s, a).0, b).1,
        ),
    decreases a.len(),
{
    if a.len() == 0 {
        assert(a + b =~= b);
        assert(detect_all(s, a).1 + detect_all(detect_all(s, a).0, b).1 =~= detect_all(
            detect_all(s, a).0,
            b,
        ).1);
    } else {
        let first = detect(s, a[0]);
        assert((a + b).drop_first() =~= a.drop_first() + b);
        assert((a + b)[0] == a[0]);
        lemma_detect_concat(first.0, a.drop_first(), b);
        let mid = detect_all(first.0, a.drop_first());
        let end = detect_all(mid.0, b);
        assert(emitted(first.1) + (mid.1 + end.1) =~= (emitted(first.1) + mid.1) + end.1);
    }
}

/// Clear bits on an empty register are counted and give nothing.
pub proof fn lemma_detect_idle_bits(pending: nat, count: nat, n: nat)
    requires
        count + n <= PHASE_AMBIGUITY_THRESHOLD,
    ensures
        detect_all(
            upright(DecoderState { register: Seq::empty(), pending }, count),
            zeros(n),
        ) == (
            upright(DecoderState { register: Seq::empty(), pending: pending + n }, count + n),
            Seq::<char>::empty(),
        ),
    decreases n,
{
    if n > 0 {
        assert(zeros(n).drop_first() =~= zeros((n - 1) as nat));
        lemma_detect_idle_bits(pending + 1, count + 1, (n - 1) as nat);
        assert(emitted(None::<char>) + Seq::<char>::empty() =~= Seq::<char>::empty());
    }
}

/// Bits without two clear bits in a row, taken in behind a register that is
/// not empty, join the register and give nothing.
pub proof fn lemma_detect_absorbs(register: Seq<bool>, pending: nat, count: nat, bits: Seq<bool>)
    requires
        register.len() > 0,
        pending <= 1,
        no_double_zero(bits),
        pending == 1 && bits.len() > 0 ==> bits[0],
        count + bits.len() <= PHASE_AMBIGUITY_THRESHOLD,
    ensures
        detect_all(upright(DecoderState { register, pending }, count), bits) == (
            upright(
                if bits.len() == 0 {
                    DecoderState { register, pending }
                } else {
                    settled(register + zeros(pending) + bits)
                },
                count + bits.len(),
            ),
            Seq::<char>::empty(),
        ),
    decreases bits.len(),
{
    if bits.len() > 0 {
        let rest = bits.drop_first();
        assert forall|i: int| 0 <= i && i + 1 < rest.len() implies rest[i] || #[trigger] rest[i
            + 1] by {
            assert(bits[i + 1] || bits[i + 1 + 1]);
        }
        assert(emitted(None::<char>) + Seq::<char>::empty() =~= Seq::<char>::empty());
        let all = register + zeros(pending) + bits;
        if bits[0] {
            let grown = register + zeros(pending) + seq![true];
            lemma_detect_absorbs(grown, 0, count + 1, rest);
            assert(grown + zeros(0) + rest =~= all);
            if rest.len() == 0 {
                assert(grown =~= all);
            }
        } else {
            assert(pending == 0);
            if rest.len() > 0 {
                assert(bits[0int] || bits[0int + 1]);
                assert(rest[0]);
            }
            lemma_detect_absorbs(register, 1, count + 1, rest);
            assert(register + zeros(1) + rest =~= all);
            if rest.len() == 0 {
                assert(all.drop_last() =~= register);
            }
        }
    }
}

/// A framed character, taken in on an empty register: where no clear bit was
/// pending, the character comes out and the count starts again; where one was,
/// the pending bits spoil the code and nothing comes out. Either way the
/// character decoder is idle afterwards.
pub proof fn lemma_detect_frame(pending: nat, count: nat, c: u8)
    requires
        c < 128,
        count + framed(c).len() <= PHASE_AMBIGUITY_THRESHOLD,
    ensures
        framed(c).len() == code_bits(c).len() + 2,
        framed(c).len() <= 12,
        detect_all(
            upright(DecoderState { register: Seq::empty(), pending }, count),
            framed(c),
        ) == if pending == 0 {
            (upright(idle(), 0), seq![c as char])
        } else {
            (upright(idle(), count + framed(c).len()), Seq::<char>::empty())
        },
{
    let code = code_bits(c);
    lemma_code_shape(c);
    lemma_code_len(c);
    lemma_spaced_bits(code_word(c));
    lemma_bits_lead(code_word(c));
    assert(code.last()) by {
        assert(code == super::varicode::bits_of(code_word(c) / 2).push(code_word(c) % 2 == 1));
    }
    let start = upright(DecoderState { register: Seq::empty(), pending }, count);
    let tail = code.drop_first();
    let lead = Seq::<bool>::empty() + zeros(pending) + seq![true];
    assert(code =~= seq![true] + tail);
    assert(framed(c) =~= seq![true] + (tail + seq![false, false]));
    // The first bit of the code.
    lemma_detect_concat(start, seq![true], tail + seq![false, false]);
    lemma_detect_one(start, true);
    let after_lead = upright(DecoderState { register: lead, pending: 0 }, count + 1);
    assert(detect(start, true) == (after_lead, None::<char>));
    // The rest of the code.
    assert forall|i: int| 0 <= i && i + 1 < tail.len() implies tail[i] || #[trigger] tail[i
        + 1] by {
        assert(code[i + 1] || code[i + 1 + 1]);
    }
    lemma_detect_concat(after_lead, tail, seq![false, false]);
    lemma_detect_absorbs(lead, 0, count + 1, tail);
    let full = zeros(pending) + code;
    assert(lead + zeros(0) + tail =~= full);
    assert(lead =~= zeros(pending) + seq![true]);
    let after_code = upright(DecoderState { register: full, pending: 0 }, count + code.len());
    if tail.len() == 0 {
        assert(full =~= lead);
    } else {
        assert(full.last() == code.last());
    }
    assert(detect_all(after_lead, tail) == (after_code, Seq::<char>::empty()));
    // The separator.
    assert(seq![false, false] =~= seq![false] + seq![false]);
    lemma_detect_concat(after_code, seq![false], seq![false]);
    lemma_detect_one(after_code, false);
    let held = upright(DecoderState { register: full, pending: 1 }, count + code.len() + 1);
    assert(detect(after_code, false) == (held, None::<char>));
    lemma_detect_one(held, false);
    if pending == 0 {
        assert(full =~= code);
        lemma_lookup_code(c);
        assert(detect(held, false) == (upright(idle(), 0), Some(c as char)));
        assert(Seq::<char>::empty() + (Seq::<char>::empty() + (Seq::<char>::empty() + seq![
            c as char,
        ])) =~= seq![c as char]);
    } else {
        assert(!full[0]);
        assert forall|d: u8| d < 128 implies code_bits(d) != full by {
            lemma_bits_lead(code_word(d));
            lemma_code_shape(d);
        }
        assert(lookup(full) is None);
        assert(detect(held, false) == (
            upright(idle(), count + code.len() + 2),
            None::<char>,
        ));
        assert(Seq::<char>::empty() + (Seq::<char>::empty() + (Seq::<char>::empty() + Seq::<
            char,
        >::empty())) =~= Seq::<char>::empty());
    }
}

/// Detecting one symbol is one step.
pub proof fn lemma_detect_one(s: DetectorState, same_sign: bool)
    ensures
        detect_all(s, seq![same_sign]) == (detect(s, same_sign).0, emitted(detect(s, same_sign).1)),
{
    reveal_with_fuel(detect_all, 2);
    assert(seq![same_sign].drop_first() =~= Seq::<bool>::empty());
    assert(emitted(detect(s, same_sign).1) + Seq::<char>::empty() =~= emitted(
        detect(s, same_sign).1,
    ));
}

/// A framed text begins with its first character, framed.
pub proof fn lemma_framed_text_front(text: Seq<u8>)
    requires
        text.len() > 0,
    ensures
        framed_text(text) == framed(text[0]) + framed_text(text.drop_first()),
    decreases text.len(),
{
    if text.len() == 1 {
        assert(text.drop_last() =~= Seq::<u8>::empty());
        assert(text.drop_first() =~= Seq::<u8>::empty());
        assert(framed_text(text) =~= framed(text[0]) + framed_text(text.drop_first()));
    } else {
        let front = text.drop_last();
        lemma_framed_text_front(front);
        assert(front.drop_first() =~= text.drop_first().drop_last());
        assert(front[0] == text[0]);
        assert(text.drop_first().last() == text.last());
        assert(framed_text(text) =~= framed(text[0]) + (framed_text(front.drop_first()) + framed(
            text.last(),
        )));
    }
}

/// A framed text, taken in by a detector whose character decoder is idle,
/// comes out character by character.
pub proof fn lemma_detect_text(count: nat, text: Seq<u8>)
    requires
        forall|i: int| 0 <= i < text.len() ==> text[i] < 128,
        count + 12 <= PHASE_AMBIGUITY_THRESHOLD,
    ensures
        detect_all(upright(idle(), count), framed_text(text)) == (
            upright(
                idle(),
                if text.len() == 0 {
                    count
                } else {
                    0
                },
            ),
            as_chars(text),
        ),
    decreases text.len(),
{
    if text.len() == 0 {
        assert(as_chars(text) =~= Seq::<char>::empty());
    } else {
        let rest = text.drop_first();
        lemma_framed_text_front(text);
        lemma_code_len(text[0]);
        lemma_detect_frame(0, count, text[0]);
        lemma_detect_concat(upright(idle(), count), framed(text[0]), framed_text(rest));
        lemma_detect_text(0, rest);
        assert(seq![text[0] as char] + as_chars(rest) =~= as_chars(text));
    }
}

/// A text without its first character: what a receiver that was not locked
/// before the text began can read of it.
pub open spec fn after_lock(text: Seq<char>) -> Seq<char> {
    if text.len() == 0 {
        text
    } else {
        text.drop_first()
    }
}

/// A receiver that takes in a whole transmission from its first bit hands out
/// the text without its first character, which the preamble costs, and does
/// not invert its reading.
pub proof fn lemma_transmission_is_read(text: Seq<char>)
    ensures
        detect_all(fresh(), message_bits(text)).1 == after_lock(as_chars(sendable(text))),
        !detect_all(fresh(), message_bits(text)).0.invert_bits,
{
    let codes = sendable(text);
    lemma_sendable_is_ascii(text);
    let preamble = zeros(PREAMBLE_BITS as nat);
    let postamble = zeros(POSTAMBLE_BITS as nat);
    let body = framed_text(codes);
    assert(message_bits(text) =~= preamble + (body + postamble));
    lemma_detect_concat(fresh(), preamble, body + postamble);
    lemma_detect_idle_bits(0, 0, PREAMBLE_BITS as nat);
    let locked = upright(DecoderState { register: Seq::empty(), pending: 32 }, 32);
    assert(detect_all(fresh(), preamble) == (locked, Seq::<char>::empty()));
    lemma_detect_concat(locked, body, postamble);
    if codes.len() == 0 {
        lemma_detect_idle_bits(32, 32, POSTAMBLE_BITS as nat);
        assert(as_chars(codes) =~= Seq::<char>::empty());
        assert(Seq::<char>::empty() + (Seq::<char>::empty() + Seq::<char>::empty()) =~= Seq::<
            char,
        >::empty());
    } else {
        let rest = codes.drop_first();
        lemma_framed_text_front(codes);
        lemma_code_len(codes[0]);
        lemma_detect_frame(32, 32, codes[0]);
        let lost = 32 + framed(codes[0]).len();
        lemma_detect_concat(locked, framed(codes[0]), framed_text(rest));
        lemma_detect_text(lost as nat, rest);
        let count = if rest.len() == 0 {
            lost as nat
        } else {
            0
        };
        lemma_detect_idle_bits(0, count, POSTAMBLE_BITS as nat);
        assert(as_chars(codes).drop_first() =~= as_chars(rest));
        assert(Seq::<char>::empty() + ((Seq::<char>::empty() + as_chars(rest)) + Seq::<
            char,
        >::empty()) =~= as_chars(rest));
    }
}

/// A receiver that compares the phases of the symbols of a transmission reads
/// the bits of the transmission, and so hands out the text without its first
/// character.
pub proof fn lemma_phases_are_read(text: Seq<char>)
    ensures
        detect_all(fresh(), detected(phases(message_bits(text), false), false)).1 == after_lock(
            as_chars(sendable(text)),
        ),
{
    lemma_differential_round_trip(message_bits(text), false);
    lemma_transmission_is_read(text);
}

/// An ASCII character has an ASCII codepoint.
proof fn lemma_ascii_codepoint(c: char)
    requires
        (c as u32) < 128,
    ensures
        (c as u8) < 128,
{
}

/// Every codepoint that is sent is an ASCII codepoint.
pub proof fn lemma_sendable_is_ascii(text: Seq<char>)
    ensures
        forall|i: int| 0 <= i < sendable(text).len() ==> sendable(text)[i] < 128,
    decreases text.len(),
{
    if text.len() > 0 {
        let front = sendable(text.drop_last());
        lemma_sendable_is_ascii(text.drop_last());
        assert forall|i: int| 0 <= i < sendable(text).len() implies sendable(text)[i] < 128 by {
            if i < front.len() {
                assert(sendable(text)[i] == front[i]);
            } else {
                lemma_ascii_codepoint(text.last());
            }
        }
    }
}

} // verus!
