//! Bit sequences and the numbers whose binary digits they are.

use vstd::arithmetic::power2::{lemma2_to64, lemma_pow2_unfold, pow2};
use vstd::prelude::*;

verus! {

/// The binary digits of `w`, most significant first, without leading zeros.
pub open spec fn bits_of(w: nat) -> Seq<bool>
    decreases w,
{
    if w == 0 {
        Seq::empty()
    } else {
        bits_of(w / 2).push(w % 2 == 1)
    }
}

/// The number whose binary digits, most significant first, are `bits`.
pub open spec fn value_of(bits: Seq<bool>) -> nat
    decreases bits.len(),
{
    if bits.len() == 0 {
        0
    } else {
        2 * value_of(bits.drop_last()) + if bits.last() {
            1nat
        } else {
            0nat
        }
    }
}

/// A bit sequence written with the characters `1` and `0`.
pub open spec fn bit_text(bits: Seq<bool>) -> Seq<char> {
    Seq::new(
        bits.len(),
        |i: int|
            if bits[i] {
                '1'
            } else {
                '0'
            },
    )
}

/// The bits that a text of `1` and `0` characters stands for: `1` is a set bit,
/// every other character a clear one.
pub open spec fn text_bits(text: Seq<char>) -> Seq<bool> {
    Seq::new(text.len(), |i: int| text[i] == '1')
}

/// `n` clear bits.
pub open spec fn zeros(n: nat) -> Seq<bool> {
    Seq::new(n, |i: int| false)
}

/// No two neighbouring binary digits of `w` are both zero.
pub open spec fn spaced(w: nat) -> bool
    decreases w,
{
    w < 2 || (w % 4 != 0 && spaced(w / 2))
}

/// No two neighbouring bits of `bits` are both clear.
pub open spec fn no_double_zero(bits: Seq<bool>) -> bool {
    forall|i: int| 0 <= i && i + 1 < bits.len() ==> bits[i] || #[trigger] bits[i + 1]
}

/// Bits written as text and read again are the same bits.
pub proof fn lemma_text_bits(bits: Seq<bool>)
    ensures
        text_bits(bit_text(bits)) == bits,
{
    assert(text_bits(bit_text(bits)) =~= bits);
}

/// A digit more at the end doubles the value and adds the digit.
pub proof fn lemma_value_push(bits: Seq<bool>, b: bool)
    ensures
        value_of(bits.push(b)) == 2 * value_of(bits) + if b {
            1nat
        } else {
            0nat
        },
{
    assert(bits.push(b).drop_last() =~= bits);
}

/// Reading the digits of a number gives the number back.
pub proof fn lemma_value_of_bits(w: nat)
    ensures
        value_of(bits_of(w)) == w,
    decreases w,
{
    if w > 0 {
        lemma_value_of_bits(w / 2);
        lemma_value_push(bits_of(w / 2), w % 2 == 1);
    }
}

/// Two bit sequences of one length with one value are the same sequence.
pub proof fn lemma_value_injective(a: Seq<bool>, b: Seq<bool>)
    requires
        a.len() == b.len(),
        value_of(a) == value_of(b),
    ensures
        a == b,
    decreases a.len(),
{
    if a.len() > 0 {
        lemma_value_injective(a.drop_last(), b.drop_last());
        assert(a =~= a.drop_last().push(a.last()));
        assert(b =~= b.drop_last().push(b.last()));
    } else {
        assert(a =~= b);
    }
}

/// A sequence of `n` bits stands for a number below two to the `n`.
pub proof fn lemma_value_bound(bits: Seq<bool>)
    ensures
        value_of(bits) < pow2(bits.len()),
    decreases bits.len(),
{
    if bits.len() > 0 {
        lemma_value_bound(bits.drop_last());
        lemma_pow2_unfold(bits.len());
    } else {
        lemma2_to64();
    }
}

/// A value of at most ten bits is below 1024.
pub proof fn lemma_value_small(bits: Seq<bool>)
    requires
        bits.len() <= 10,
    ensures
        value_of(bits) < 1024,
    decreases 10 - bits.len(),
{
    if bits.len() < 10 {
        lemma_value_push(bits, false);
        lemma_value_small(bits.push(false));
    } else {
        lemma_value_bound(bits);
        lemma2_to64();
    }
}

/// A number below two to the `k` has at most `k` digits.
pub proof fn lemma_bits_len(w: nat, k: nat)
    requires
        w < pow2(k),
    ensures
        bits_of(w).len() <= k,
    decreases w,
{
    if w > 0 {
        if k == 0 {
            lemma2_to64();
        } else {
            lemma_pow2_unfold(k);
            lemma_bits_len(w / 2, (k - 1) as nat);
        }
    }
}

/// The first digit of a positive number is a one.
pub proof fn lemma_bits_lead(w: nat)
    requires
        w > 0,
    ensures
        bits_of(w).len() > 0,
        bits_of(w)[0],
    decreases w,
{
    assert(bits_of(w) == bits_of(w / 2).push(w % 2 == 1));
    if w / 2 > 0 {
        lemma_bits_lead(w / 2);
    }
}

/// Digits without two zeros in a row, seen as a bit sequence.
pub proof fn lemma_spaced_bits(w: nat)
    requires
        spaced(w),
    ensures
        no_double_zero(bits_of(w)),
    decreases w,
{
    if w >= 2 {
        lemma_spaced_bits(w / 2);
        let high = bits_of(w / 2);
        let all = bits_of(w);
        assert(all == high.push(w % 2 == 1));
        assert(high == bits_of(w / 2 / 2).push((w / 2) % 2 == 1));
        assert forall|i: int| 0 <= i && i + 1 < all.len() implies all[i] || #[trigger] all[i
            + 1] by {
            if i + 1 < high.len() {
                assert(high[i] || high[i + 1]);
            } else {
                assert(all[i] == ((w / 2) % 2 == 1));
                assert(all[i + 1] == (w % 2 == 1));
            }
        }
    } else if w == 1 {
        assert(bits_of(1) == bits_of(0).push(true));
    }
}

} // verus!
