//! What coding and decoding promise of each other.

use super::bits::{bits_of, lemma_bits_lead, lemma_spaced_bits, no_double_zero, zeros};
use super::stream::{emitted, idle, lemma_lookup_code, run, step, DecoderState};
use super::table::{code_bits, code_word, lemma_code_shape};
use vstd::prelude::*;

verus! {

/// A character on the air: its code followed by the `00` separator.
pub open spec fn framed(c: u8) -> Seq<bool> {
    code_bits(c) + seq![false, false]
}

/// A text on the air: its characters framed one after the other.
pub open spec fn framed_text(text: Seq<u8>) -> Seq<bool>
    decreases text.len(),
{
    if text.len() == 0 {
        Seq::empty()
    } else {
        framed_text(text.drop_last()) + framed(text.last())
    }
}

/// The characters of a sequence of codepoints.
pub open spec fn as_chars(text: Seq<u8>) -> Seq<char> {
    Seq::new(text.len(), |i: int| text[i] as char)
}

/// The state after the bits of one code, or of the beginning of one, have come
/// in from the idle state.
pub open spec fn absorbed(bits: Seq<bool>) -> DecoderState {
    if bits.len() == 0 {
        idle()
    } else if bits.last() {
        DecoderState { register: bits, pending: 0 }
    } else {
        DecoderState { register: bits.drop_last(), pending: 1 }
    }
}

/// Decoding a sequence in two parts gives what decoding it at once gives.
pub proof fn lemma_run_concat(s: DecoderState, a: Seq<bool>, b: Seq<bool>)
    ensures
        run(s, a + b) == (run(run(s, a).0, b).0, run(s, a).1 + run(run(s, a).0, b).1),
    decreases a.len(),
{
    if a.len() == 0 {
        assert(a + b =~= b);
        assert(run(s, a).1 + run(run(s, a).0, b).1 =~= run(run(s, a).0, b).1);
    } else {
        let first = step(s, a[0]);
        assert((a + b).drop_first() =~= a.drop_first() + b);
        assert((a + b)[0] == a[0]);
        lemma_run_concat(first.0, a.drop_first(), b);
        let mid = run(first.0, a.drop_first());
        let end = run(mid.0, b);
        assert(emitted(first.1) + (mid.1 + end.1) =~= (emitted(first.1) + mid.1) + end.1);
    }
}

/// Decoding one bit is one step.
pub proof fn lemma_run_one(s: DecoderState, bit: bool)
    ensures
        run(s, seq![bit]) == (step(s, bit).0, emitted(step(s, bit).1)),
{
    reveal_with_fuel(run, 2);
    assert(seq![bit].drop_first() =~= Seq::<bool>::empty());
    assert(emitted(step(s, bit).1) + Seq::<char>::empty() =~= emitted(step(s, bit).1));
}

/// Bits that begin with a set bit and hold no two clear bits in a row gather in
/// the register and let no character out.
pub proof fn lemma_run_absorbs(bits: Seq<bool>)
    requires
        no_double_zero(bits),
        bits.len() > 0 ==> bits[0],
    ensures
        run(idle(), bits) == (absorbed(bits), Seq::<char>::empty()),
    decreases bits.len(),
{
    if bits.len() > 0 {
        let front = bits.drop_last();
        let last = bits.last();
        assert(bits =~= front + seq![last]);
        assert forall|i: int| 0 <= i && i + 1 < front.len() implies front[i] || #[trigger] front[i
            + 1] by {
            assert(bits[i] || bits[i + 1]);
        }
        lemma_run_absorbs(front);
        lemma_run_concat(idle(), front, seq![last]);
        let mid = absorbed(front);
        lemma_run_one(mid, last);
        if front.len() == 0 {
            assert(mid.register + zeros(mid.pending) + seq![true] =~= bits);
        } else if front.last() {
            if last {
                assert(mid.register + zeros(mid.pending) + seq![true] =~= bits);
            } else {
                assert(bits.drop_last() =~= front);
            }
        } else {
            assert(bits[front.len() - 1] || bits[front.len() - 1 + 1]);
            assert(last);
            assert(mid.register + zeros(mid.pending) + seq![true] =~= bits);
        }
        assert(step(mid, last) == (absorbed(bits), None::<char>));
        assert(Seq::<char>::empty() + emitted(None::<char>) =~= Seq::<char>::empty());
    }
}

/// A decoder with nothing under way, given the code of an ASCII character and
/// then the `00` separator, hands out exactly that character and has nothing
/// under way again.
pub proof fn lemma_char_round_trip(c: u8)
    requires
        c < 128,
    ensures
        run(idle(), framed(c)) == (idle(), seq![c as char]),
{
    let code = code_bits(c);
    lemma_code_shape(c);
    lemma_spaced_bits(code_word(c));
    lemma_bits_lead(code_word(c));
    lemma_run_absorbs(code);
    lemma_run_concat(idle(), code, seq![false, false]);
    assert(code.last()) by {
        assert(code == bits_of(code_word(c) / 2).push(code_word(c) % 2 == 1));
    }
    let full = absorbed(code);
    let tail = seq![false, false];
    let once = step(full, false);
    let twice = step(once.0, false);
    assert(tail =~= seq![false] + seq![false]);
    lemma_run_concat(full, seq![false], seq![false]);
    lemma_run_one(full, false);
    lemma_run_one(once.0, false);
    lemma_lookup_code(c);
    assert(twice == (idle(), Some(c as char)));
    assert(Seq::<char>::empty() + (emitted(once.1) + emitted(twice.1)) =~= seq![c as char]);
}

/// A decoder with nothing under way, given a text of ASCII characters framed one
/// after the other, hands out exactly the characters of the text, in order.
pub proof fn lemma_text_round_trip(text: Seq<u8>)
    requires
        forall|i: int| 0 <= i < text.len() ==> text[i] < 128,
    ensures
        run(idle(), framed_text(text)) == (idle(), as_chars(text)),
    decreases text.len(),
{
    if text.len() == 0 {
        assert(as_chars(text) =~= Seq::<char>::empty());
    } else {
        let front = text.drop_last();
        lemma_text_round_trip(front);
        lemma_char_round_trip(text.last());
        lemma_run_concat(idle(), framed_text(front), framed(text.last()));
        assert(as_chars(front) + seq![text.last() as char] =~= as_chars(text));
    }
}

} // verus!
