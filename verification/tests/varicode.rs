use baudacious::modem::varicode::{Varicode, VaricodeDecoder};

fn decode_bits(decoder: &mut VaricodeDecoder, bits: &[bool]) -> String {
    let mut decoded = String::new();
    for &bit in bits {
        if let Some(ch) = decoder.push_bit(bit) {
            decoded.push(ch);
        }
    }
    decoded
}

fn framed(text: &str) -> Vec<bool> {
    let mut bits = Vec::new();
    for ch in text.chars() {
        let code = Varicode::encode(ch).unwrap();
        bits.extend(Varicode::bits_from_str(code));
        bits.push(false);
        bits.push(false);
    }
    bits
}

#[test]
fn test_encode_common_chars() {
    assert_eq!(Varicode::encode(' '), Some("1"));
    assert_eq!(Varicode::encode('e'), Some("11"));
    assert_eq!(Varicode::encode('t'), Some("101"));
    assert_eq!(Varicode::encode('\n'), Some("11101"));
}

#[test]
fn test_decode_roundtrip() {
    let mut decoder = VaricodeDecoder::new();

    let test_chars = ['t', 'e', 's', 't'];
    let mut all_bits = Vec::new();

    for ch in test_chars {
        let code = Varicode::encode(ch).unwrap();
        all_bits.extend(Varicode::bits_from_str(code));
        all_bits.push(false);
        all_bits.push(false);
    }

    let mut decoded = String::new();
    for bit in all_bits {
        if let Some(ch) = decoder.push_bit(bit) {
            decoded.push(ch);
        }
    }

    assert_eq!(decoded, "test");
}

#[test]
fn encode_table_spot_values() {
    assert_eq!(Varicode::encode('\0'), Some("1010101011"));
    assert_eq!(Varicode::encode('A'), Some("1111101"));
    assert_eq!(Varicode::encode('H'), Some("101010101"));
    assert_eq!(Varicode::encode('I'), Some("1111111"));
    assert_eq!(Varicode::encode('Z'), Some("1010101101"));
    assert_eq!(Varicode::encode('a'), Some("1011"));
    assert_eq!(Varicode::encode('0'), Some("10110111"));
    assert_eq!(Varicode::encode('~'), Some("1011010111"));
    assert_eq!(Varicode::encode('\u{7f}'), Some("1110110101"));
}

#[test]
fn encode_rejects_characters_beyond_ascii() {
    assert_eq!(Varicode::encode('\u{80}'), None);
    assert_eq!(Varicode::encode('é'), None);
    // U+0142 has the low byte of 'B'; it still has no code.
    assert_eq!(Varicode::encode('\u{142}'), None);
    assert_eq!(Varicode::encode('\u{1F600}'), None);
}

#[test]
fn every_code_has_the_shape_of_a_code() {
    let mut seen: Vec<&'static str> = Vec::new();
    for point in 0u8..128 {
        let code = Varicode::encode(point as char).unwrap();
        assert!(!code.is_empty() && code.len() <= 10, "length of {code}");
        assert!(code.starts_with('1') && code.ends_with('1'), "ends of {code}");
        assert!(!code.contains("00"), "separator inside {code}");
        assert!(code.chars().all(|c| c == '0' || c == '1'));
        assert!(!seen.contains(&code), "{code} twice");
        seen.push(code);
    }
}

#[test]
fn bits_from_str_reads_ones_and_zeros() {
    assert_eq!(Varicode::bits_from_str("101"), vec![true, false, true]);
    assert_eq!(Varicode::bits_from_str(""), Vec::<bool>::new());
    // Anything but '1' counts as a clear bit.
    assert_eq!(Varicode::bits_from_str("1x0"), vec![true, false, false]);
}

#[test]
fn every_character_survives_the_round_trip() {
    for point in 0u8..128 {
        let ch = point as char;
        let mut decoder = VaricodeDecoder::new();
        let mut bits = Varicode::bits_from_str(Varicode::encode(ch).unwrap());
        bits.push(false);
        bits.push(false);
        let mut out = Vec::new();
        for bit in bits {
            if let Some(c) = decoder.push_bit(bit) {
                out.push(c);
            }
        }
        assert_eq!(out, vec![ch]);
    }
}

#[test]
fn whole_alphabet_in_one_stream_round_trips() {
    let text: String = (0u8..128).map(|p| p as char).collect();
    let mut decoder = VaricodeDecoder::new();
    assert_eq!(decode_bits(&mut decoder, &framed(&text)), text);
}

#[test]
fn separator_on_an_empty_register_gives_nothing() {
    let mut decoder = VaricodeDecoder::new();
    assert_eq!(decoder.push_bit(false), None);
    assert_eq!(decoder.push_bit(false), None);
    assert_eq!(decoder.push_bit(false), None);
}

#[test]
fn zeros_held_back_before_a_code_spoil_that_code_only() {
    let mut decoder = VaricodeDecoder::new();
    // One stray clear bit, then "e", then "t".
    let mut bits = vec![false];
    bits.extend(framed("et"));
    assert_eq!(decode_bits(&mut decoder, &bits), "t");
}

#[test]
fn unknown_code_gives_nothing_and_clears_the_register() {
    let mut decoder = VaricodeDecoder::new();
    // Eleven set bits are no code.
    for _ in 0..11 {
        assert_eq!(decoder.push_bit(true), None);
    }
    assert_eq!(decoder.push_bit(false), None);
    assert_eq!(decoder.push_bit(false), None);
    assert_eq!(decode_bits(&mut decoder, &framed("e")), "e");
}

#[test]
fn long_runs_of_bits_do_not_overflow() {
    let mut decoder = VaricodeDecoder::new();
    for _ in 0..1000 {
        assert_eq!(decoder.push_bit(false), None);
    }
    for _ in 0..1000 {
        assert_eq!(decoder.push_bit(true), None);
    }
    assert_eq!(decoder.push_bit(false), None);
    assert_eq!(decoder.push_bit(false), None);
    assert_eq!(decode_bits(&mut decoder, &framed("ok")), "ok");
}

#[test]
fn reset_forgets_the_character_under_way() {
    let mut decoder = VaricodeDecoder::new();
    decoder.push_bit(true);
    decoder.push_bit(false);
    decoder.reset();
    assert_eq!(decode_bits(&mut decoder, &framed("t")), "t");
}

#[test]
fn default_decoder_is_a_new_decoder() {
    let mut decoder = VaricodeDecoder::default();
    assert_eq!(decode_bits(&mut decoder, &framed(" ")), " ");
}

#[test]
fn lookup_code_reads_the_register() {
    let mut decoder = VaricodeDecoder::new();
    assert_eq!(decoder.lookup_code(), None);
    decoder.push_bit(true);
    assert_eq!(decoder.lookup_code(), Some(' '));
    decoder.push_bit(true);
    assert_eq!(decoder.lookup_code(), Some('e'));
    decoder.push_bit(false);
    // The clear bit is held back: the register still holds "11".
    assert_eq!(decoder.lookup_code(), Some('e'));
    decoder.push_bit(true);
    // "1101" is 'i'.
    assert_eq!(decoder.lookup_code(), Some('i'));
}
