//! The streaming decoder.
//!
//! Clear bits are held back when they arrive: they belong to the character
//! under way if a set bit follows, and end it if a second clear bit does.

use super::bits::{
    bits_of, lemma_value_injective, lemma_value_of_bits, lemma_value_push, lemma_value_small,
    value_of, zeros,
};
use super::table::{
    code_bits, code_word, lemma_code_distinct, lemma_code_len, word_of, MAX_CODE_BITS,
};
use vstd::arithmetic::power2::{lemma2_to64, lemma_pow2_unfold, pow2};
use vstd::prelude::*;

verus! {

/// What the streaming decoder holds between two bits.
pub struct DecoderState {
    /// The bits of the character under way, oldest first.
    pub register: Seq<bool>,
    /// Clear bits that arrived after the register's last bit and are not yet
    /// known to belong to the character.
    pub pending: nat,
}

/// The state with nothing under way.
pub open spec fn idle() -> DecoderState {
    DecoderState { register: Seq::empty(), pending: 0 }
}

/// The character whose code is exactly `register`, if there is one.
pub open spec fn lookup(register: Seq<bool>) -> Option<char> {
    if exists|c: u8| c < 128 && code_bits(c) == register {
        Some((choose|c: u8| c < 128 && code_bits(c) == register) as char)
    } else {
        None
    }
}

/// One bit of decoding. A set bit confirms the pending clear bits as part of the
/// character and joins the register after them. A clear bit is held back; the
/// second one in a row closes a non-empty register, which is looked up and
/// cleared.
pub open spec fn step(s: DecoderState, bit: bool) -> (DecoderState, Option<char>) {
    if bit {
        (DecoderState { register: s.register + zeros(s.pending) + seq![true], pending: 0 }, None)
    } else if s.pending >= 1 && s.register.len() > 0 {
        (idle(), lookup(s.register))
    } else {
        (DecoderState { register: s.register, pending: s.pending + 1 }, None)
    }
}

/// The characters that one step hands out.
pub open spec fn emitted(ch: Option<char>) -> Seq<char> {
    match ch {
        Some(c) => seq![c],
        None => Seq::empty(),
    }
}

/// Decoding of a whole bit sequence: the final state and the characters in the
/// order in which they came out.
pub open spec fn run(s: DecoderState, bits: Seq<bool>) -> (DecoderState, Seq<char>)
    decreases bits.len(),
{
    if bits.len() == 0 {
        (s, Seq::empty())
    } else {
        let first = step(s, bits[0]);
        let rest = run(first.0, bits.drop_first());
        (rest.0, emitted(first.1) + rest.1)
    }
}

/// Streaming decoder: takes the received bits one at a time and hands out each
/// character when the separator after it arrives.
pub struct VaricodeDecoder {
    bit_buffer: u16,
    bit_count: u8,
    consecutive_zeros: u8,
    state: Ghost<DecoderState>,
}

impl View for VaricodeDecoder {
    type V = DecoderState;

    closed spec fn view(&self) -> DecoderState {
        self.state@
    }
}

impl VaricodeDecoder {
    /// The machine fields stand for the state: lengths are counted up to
    /// eleven, one more than any code has, and the register's value is kept
    /// while it may still be a code.
    #[verifier::type_invariant]
    spec fn tracks(&self) -> bool {
        let s = self.state@;
        &&& self.bit_count as nat == if s.register.len() <= 10 {
            s.register.len()
        } else {
            11
        }
        &&& self.consecutive_zeros as nat == if s.pending <= 10 {
            s.pending
        } else {
            11
        }
        &&& s.register.len() <= 10 ==> self.bit_buffer as nat == value_of(s.register)
    }

    /// A decoder with nothing under way.
    pub fn new() -> (decoder: Self)
        ensures
            decoder@ == idle(),
    {
        VaricodeDecoder { bit_buffer: 0, bit_count: 0, consecutive_zeros: 0, state: Ghost(idle()) }
    }

    /// Takes one received bit and returns the character that it completes, if
    /// any.
    pub fn push_bit(&mut self, bit: bool) -> (ch: Option<char>)
        ensures
            (final(self)@, ch) == step(old(self)@, bit),
    {
        proof {
            use_type_invariant(&*self);
        }
        let ghost before = self@;
        let count: u8 = self.bit_count;
        let held: u8 = self.consecutive_zeros;
        if bit {
            let ghost after = step(before, true).0;
            let grown: u8 = count + held + 1;
            if grown > 10 {
                *self = VaricodeDecoder {
                    bit_buffer: 0,
                    bit_count: 11,
                    consecutive_zeros: 0,
                    state: Ghost(after),
                };
            } else {
                let mut buffer: u16 = self.bit_buffer;
                let mut i: u8 = 0;
                while i < held
                    invariant
                        i <= held,
                        count + held + 1 <= 10,
                        before.register.len() == count,
                        buffer as nat == value_of(before.register + zeros(i as nat)),
                    decreases held - i,
                {
                    proof {
                        let sofar = before.register + zeros(i as nat);
                        lemma_value_small(sofar);
                        lemma_value_push(sofar, false);
                        assert(sofar.push(false) =~= before.register + zeros((i + 1) as nat));
                        lemma_value_small(sofar.push(false));
                    }
                    buffer = buffer * 2;
                    i += 1;
                }
                proof {
                    let sofar = before.register + zeros(held as nat);
                    lemma_value_small(sofar);
                    lemma_value_push(sofar, true);
                    assert(sofar.push(true) =~= after.register);
                    lemma_value_small(after.register);
                }
                buffer = buffer * 2 + 1;
                *self = VaricodeDecoder {
                    bit_buffer: buffer,
                    bit_count: grown,
                    consecutive_zeros: 0,
                    state: Ghost(after),
                };
            }
            None
        } else if held >= 1 && count > 0 {
            let ch = self.lookup_code();
            *self = VaricodeDecoder {
                bit_buffer: 0,
                bit_count: 0,
                consecutive_zeros: 0,
                state: Ghost(idle()),
            };
            ch
        } else {
            let held_now: u8 = if held < 11 {
                held + 1
            } else {
                11
            };
            *self = VaricodeDecoder {
                bit_buffer: self.bit_buffer,
                bit_count: count,
                consecutive_zeros: held_now,
                state: Ghost(DecoderState { register: before.register, pending: before.pending + 1 }),
            };
            None
        }
    }

    /// The character whose code is the register's content, if there is one.
    pub fn lookup_code(&self) -> (ch: Option<char>)
        ensures
            ch == lookup(self@.register),
    {
        proof {
            use_type_invariant(self);
        }
        let ghost register = self@.register;
        if self.bit_count > MAX_CODE_BITS {
            proof {
                assert forall|c: u8| c < 128 implies code_bits(c) != register by {
                    lemma_code_len(c);
                }
            }
            return None;
        }
        let mut c: u8 = 0;
        while c < 128
            invariant
                c <= 128,
                register == self@.register,
                register.len() == self.bit_count <= 10,
                self.bit_buffer as nat == value_of(register),
                forall|d: u8| d < c ==> code_bits(d) != register,
            decreases 128 - c,
        {
            let word = word_of(c);
            let len = bit_length(word);
            proof {
                lemma_value_of_bits(code_word(c));
            }
            if len == self.bit_count && word == self.bit_buffer {
                proof {
                    lemma_value_injective(code_bits(c), register);
                    lemma_lookup_code(c);
                }
                return Some(c as char);
            }
            c += 1;
        }
        None
    }

    /// Forgets the character under way.
    pub fn reset(&mut self)
        ensures
            final(self)@ == idle(),
    {
        *self = VaricodeDecoder::new();
    }
}

impl Default for VaricodeDecoder {
    fn default() -> (decoder: Self)
        ensures
            decoder@ == idle(),
    {
        VaricodeDecoder::new()
    }
}

/// Number of binary digits of `w`.
fn bit_length(w: u16) -> (n: u8)
    ensures
        n == bits_of(w as nat).len(),
{
    let mut rest: u16 = w;
    let mut n: u8 = 0;
    proof {
        lemma2_to64();
    }
    while rest > 0
        invariant
            n + bits_of(rest as nat).len() == bits_of(w as nat).len(),
            n <= 16,
            (rest as nat) < pow2((16 - n) as nat),
        decreases rest,
    {
        proof {
            lemma2_to64();
            if n < 16 {
                lemma_pow2_unfold((16 - n) as nat);
            }
        }
        rest = rest / 2;
        n += 1;
    }
    n
}

/// Looking up the code of a codepoint finds that codepoint.
pub proof fn lemma_lookup_code(c: u8)
    requires
        c < 128,
    ensures
        lookup(code_bits(c)) == Some(c as char),
{
    let found = choose|d: u8| d < 128 && code_bits(d) == code_bits(c);
    lemma_value_of_bits(code_word(found));
    lemma_value_of_bits(code_word(c));
    lemma_code_distinct(found, c);
}

} // verus!
