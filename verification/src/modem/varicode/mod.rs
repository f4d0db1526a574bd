//! Varicode: the variable-length character code of PSK-31.
//!
//! Every code begins and ends with a `1` bit and never holds two `0` bits in a
//! row, so `00` on the air marks the boundary between two characters.

pub mod bits;
pub mod laws;
pub mod stream;
pub mod table;

pub use bits::{
    bit_text, bits_of, lemma_bits_lead, lemma_bits_len, lemma_spaced_bits, lemma_text_bits,
    lemma_value_bound, lemma_value_injective, lemma_value_of_bits, lemma_value_push,
    lemma_value_small, no_double_zero, spaced, text_bits, value_of, zeros,
};
pub use laws::{
    absorbed, as_chars, framed, framed_text, lemma_char_round_trip, lemma_run_absorbs,
    lemma_run_concat, lemma_run_one, lemma_text_round_trip,
};
pub use stream::{
    DecoderState, VaricodeDecoder, emitted, idle, lemma_lookup_code, lookup, run, step,
};
pub use table::{
    MAX_CODE_BITS, Varicode, code_bits, code_text, code_word, lemma_code_distinct,
    lemma_code_len, lemma_code_shape,
};
