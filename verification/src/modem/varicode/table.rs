//! The code table.
//!
//! The table is written once as numbers, whose binary digits are the bits of
//! the codes, and once as the strings that `Varicode::encode` hands out; each
//! string is proved to spell the digits of its number.

use super::bits::{bit_text, bits_of, lemma_bits_lead, lemma_bits_len, spaced, text_bits};
use vstd::arithmetic::power2::lemma2_to64;
use vstd::prelude::*;

verus! {

/// Length in bits of the longest code.
pub const MAX_CODE_BITS: u8 = 10;

/// The code of an ASCII codepoint, read as a binary number: its binary digits,
/// most significant first, are the bits of the code in the order they are sent.
/// Codepoints above 127 have no code and map to 0.
pub open spec fn code_word(c: u8) -> nat {
    match c {
        0 => 0b1010101011,
        1 => 0b1011011011,
        2 => 0b1011101101,
        3 => 0b1101110111,
        4 => 0b1011101011,
        5 => 0b1101011111,
        6 => 0b1011101111,
        7 => 0b1011111101,
        8 => 0b1011111111,
        9 => 0b11101111,
        10 => 0b11101,
        11 => 0b1101101111,
        12 => 0b1011011101,
        13 => 0b11111,
        14 => 0b1101110101,
        15 => 0b1110101011,
        16 => 0b1011110111,
        17 => 0b1011110101,
        18 => 0b1110101101,
        19 => 0b1110101111,
        20 => 0b1101011011,
        21 => 0b1101101011,
        22 => 0b1101101101,
        23 => 0b1101010111,
        24 => 0b1101111011,
        25 => 0b1101111101,
        26 => 0b1110110111,
        27 => 0b1101010101,
        28 => 0b1101011101,
        29 => 0b1110111011,
        30 => 0b1011111011,
        31 => 0b1101111111,
        32 => 0b1,
        33 => 0b111111111,
        34 => 0b101011111,
        35 => 0b111110101,
        36 => 0b111011011,
        37 => 0b1011010101,
        38 => 0b1010111011,
        39 => 0b101111111,
        40 => 0b11111011,
        41 => 0b11110111,
        42 => 0b101101111,
        43 => 0b111011111,
        44 => 0b1110101,
        45 => 0b110101,
        46 => 0b1010111,
        47 => 0b110101111,
        48 => 0b10110111,
        49 => 0b10111101,
        50 => 0b11101101,
        51 => 0b11111111,
        52 => 0b101110111,
        53 => 0b101011011,
        54 => 0b101101011,
        55 => 0b110101101,
        56 => 0b110101011,
        57 => 0b110110111,
        58 => 0b11110101,
        59 => 0b110111101,
        60 => 0b111101101,
        61 => 0b1010101,
        62 => 0b111010111,
        63 => 0b1010101111,
        64 => 0b1010111101,
        65 => 0b1111101,
        66 => 0b11101011,
        67 => 0b10101101,
        68 => 0b10110101,
        69 => 0b1110111,
        70 => 0b11011011,
        71 => 0b11111101,
        72 => 0b101010101,
        73 => 0b1111111,
        74 => 0b111111101,
        75 => 0b101111101,
        76 => 0b11010111,
        77 => 0b10111011,
        78 => 0b11011101,
        79 => 0b10101011,
        80 => 0b11010101,
        81 => 0b111011101,
        82 => 0b10101111,
        83 => 0b1101111,
        84 => 0b1101101,
        85 => 0b101010111,
        86 => 0b110110101,
        87 => 0b101011101,
        88 => 0b101110101,
        89 => 0b101111011,
        90 => 0b1010101101,
        91 => 0b111110111,
        92 => 0b111101111,
        93 => 0b111111011,
        94 => 0b1010111111,
        95 => 0b101101101,
        96 => 0b1011011111,
        97 => 0b1011,
        98 => 0b1011111,
        99 => 0b101111,
        100 => 0b101101,
        101 => 0b11,
        102 => 0b111101,
        103 => 0b1011011,
        104 => 0b101011,
        105 => 0b1101,
        106 => 0b111101011,
        107 => 0b10111111,
        108 => 0b11011,
        109 => 0b111011,
        110 => 0b1111,
        111 => 0b111,
        112 => 0b111111,
        113 => 0b110111111,
        114 => 0b10101,
        115 => 0b10111,
        116 => 0b101,
        117 => 0b110111,
        118 => 0b1111011,
        119 => 0b1101011,
        120 => 0b11011111,
        121 => 0b1011101,
        122 => 0b111010101,
        123 => 0b1010110111,
        124 => 0b110111011,
        125 => 0b1010110101,
        126 => 0b1011010111,
        127 => 0b1110110101,
        _ => 0,
    }
}

/// The bits of the code of `c`, in sending order.
pub open spec fn code_bits(c: u8) -> Seq<bool> {
    bits_of(code_word(c))
}

/// The code of `c` as a string of `1` and `0` characters.
pub open spec fn code_text(c: u8) -> Seq<char> {
    bit_text(code_bits(c))
}

/// The varicode table.
pub struct Varicode;

impl Varicode {
    /// The code of `ch` as a string of `1` and `0` characters, or `None` where
    /// `ch` is not an ASCII character.
    pub fn encode(ch: char) -> (code: Option<&'static str>)
        ensures
            (ch as u32) < 128 ==> code.is_some() && code.unwrap()@ == code_text(ch as u8),
            (ch as u32) >= 128 ==> code.is_none(),
    {
        let point: u32 = ch as u32;
        if point < 128 {
            Some(text_of(point as u8))
        } else {
            None
        }
    }

    /// Reads a string of `1` and `0` characters as bits: `1` gives a set bit,
    /// any other character a clear one.
    pub fn bits_from_str(s: &str) -> (bits: Vec<bool>)
        ensures
            bits@ == text_bits(s@),
    {
        let mut bits: Vec<bool> = Vec::new();
        for c in it: s.chars()
            invariant
                it.seq() == s@,
                bits@ == text_bits(s@.take(it.index() as int)),
        {
            bits.push(c == '1');
            assert(bits@ =~= text_bits(s@.take(it.index() + 1)));
        }
        assert(s@.take(s@.len() as int) =~= s@);
        bits
    }
}

/// The code string of an ASCII codepoint.
fn text_of(c: u8) -> (s: &'static str)
    requires
        c < 128,
    ensures
        s@ == code_text(c),
{
    match c / 16 {
        0 => text_controls_low(c),
        1 => text_controls_high(c),
        2 => text_punctuation(c),
        3 => text_digits(c),
        4 => text_upper_low(c),
        5 => text_upper_high(c),
        6 => text_lower_low(c),
        _ => text_lower_high(c),
    }
}

/// Code strings of NUL through SI.
fn text_controls_low(c: u8) -> (s: &'static str)
    requires
        0 <= c < 16,
    ensures
        s@ == code_text(c),
{
    reveal_with_fuel(bits_of, 11);
    match c {
        0 => {
            proof {
                reveal_strlit("1010101011");
                assert("1010101011"@ =~= code_text(0));
            }
            "1010101011"
        },
        1 => {
            proof {
                reveal_strlit("1011011011");
                assert("1011011011"@ =~= code_text(1));
            }
            "1011011011"
        },
        2 => {
            proof {
                reveal_strlit("1011101101");
                assert("1011101101"@ =~= code_text(2));
            }
            "1011101101"
        },
        3 => {
            proof {
                reveal_strlit("1101110111");
                assert("1101110111"@ =~= code_text(3));
            }
            "1101110111"
        },
        4 => {
            proof {
                reveal_strlit("1011101011");
                assert("1011101011"@ =~= code_text(4));
            }
            "1011101011"
        },
        5 => {
            proof {
                reveal_strlit("1101011111");
                assert("1101011111"@ =~= code_text(5));
            }
            "1101011111"
        },
        6 => {
            proof {
                reveal_strlit("1011101111");
                assert("1011101111"@ =~= code_text(6));
            }
            "1011101111"
        },
        7 => {
            proof {
                reveal_strlit("1011111101");
                assert("1011111101"@ =~= code_text(7));
            }
            "1011111101"
        },
        8 => {
            proof {
                reveal_strlit("1011111111");
                assert("1011111111"@ =~= code_text(8));
            }
            "1011111111"
        },
        9 => {
            proof {
                reveal_strlit("11101111");
                assert("11101111"@ =~= code_text(9));
            }
            "11101111"
        },
        10 => {
            proof {
                reveal_strlit("11101");
                assert("11101"@ =~= code_text(10));
            }
            "11101"
        },
        11 => {
            proof {
                reveal_strlit("1101101111");
                assert("1101101111"@ =~= code_text(11));
            }
            "1101101111"
        },
        12 => {
            proof {
                reveal_strlit("1011011101");
                assert("1011011101"@ =~= code_text(12));
            }
            "1011011101"
        },
        13 => {
            proof {
                reveal_strlit("11111");
                assert("11111"@ =~= code_text(13));
            }
            "11111"
        },
        14 => {
            proof {
                reveal_strlit("1101110101");
                assert("1101110101"@ =~= code_text(14));
            }
            "1101110101"
        },
        _ => {
            proof {
                reveal_strlit("1110101011");
                assert("1110101011"@ =~= code_text(15));
            }
            "1110101011"
        },
    }
}

/// Code strings of DLE through US.
fn text_controls_high(c: u8) -> (s: &'static str)
    requires
        16 <= c < 32,
    ensures
        s@ == code_text(c),
{
    reveal_with_fuel(bits_of, 11);
    match c {
        16 => {
            proof {
                reveal_strlit("1011110111");
                assert("1011110111"@ =~= code_text(16));
            }
            "1011110111"
        },
        17 => {
            proof {
                reveal_strlit("1011110101");
                assert("1011110101"@ =~= code_text(17));
            }
            "1011110101"
        },
        18 => {
            proof {
                reveal_strlit("1110101101");
                assert("1110101101"@ =~= code_text(18));
            }
            "1110101101"
        },
        19 => {
            proof {
                reveal_strlit("1110101111");
                assert("1110101111"@ =~= code_text(19));
            }
            "1110101111"
        },
        20 => {
            proof {
                reveal_strlit("1101011011");
                assert("1101011011"@ =~= code_text(20));
            }
            "1101011011"
        },
        21 => {
            proof {
                reveal_strlit("1101101011");
                assert("1101101011"@ =~= code_text(21));
            }
            "1101101011"
        },
        22 => {
            proof {
                reveal_strlit("1101101101");
                assert("1101101101"@ =~= code_text(22));
            }
            "1101101101"
        },
        23 => {
            proof {
                reveal_strlit("1101010111");
                assert("1101010111"@ =~= code_text(23));
            }
            "1101010111"
        },
        24 => {
            proof {
                reveal_strlit("1101111011");
                assert("1101111011"@ =~= code_text(24));
            }
            "1101111011"
        },
        25 => {
            proof {
                reveal_strlit("1101111101");
                assert("1101111101"@ =~= code_text(25));
            }
            "1101111101"
        },
        26 => {
            proof {
                reveal_strlit("1110110111");
                assert("1110110111"@ =~= code_text(26));
            }
            "1110110111"
        },
        27 => {
            proof {
                reveal_strlit("1101010101");
                assert("1101010101"@ =~= code_text(27));
            }
            "1101010101"
        },
        28 => {
            proof {
                reveal_strlit("1101011101");
                assert("1101011101"@ =~= code_text(28));
            }
            "1101011101"
        },
        29 => {
            proof {
                reveal_strlit("1110111011");
                assert("1110111011"@ =~= code_text(29));
            }
            "1110111011"
        },
        30 => {
            proof {
                reveal_strlit("1011111011");
                assert("1011111011"@ =~= code_text(30));
            }
            "1011111011"
        },
        _ => {
            proof {
                reveal_strlit("1101111111");
                assert("1101111111"@ =~= code_text(31));
            }
            "1101111111"
        },
    }
}

/// Code strings of space through `/`.
fn text_punctuation(c: u8) -> (s: &'static str)
    requires
        32 <= c < 48,
    ensures
        s@ == code_text(c),
{
    reveal_with_fuel(bits_of, 11);
    match c {
        32 => {
            proof {
                reveal_strlit("1");
                assert("1"@ =~= code_text(32));
            }
            "1"
        },
        33 => {
            proof {
                reveal_strlit("111111111");
                assert("111111111"@ =~= code_text(33));
            }
            "111111111"
        },
        34 => {
            proof {
                reveal_strlit("101011111");
                assert("101011111"@ =~= code_text(34));
            }
            "101011111"
        },
        35 => {
            proof {
                reveal_strlit("111110101");
                assert("111110101"@ =~= code_text(35));
            }
            "111110101"
        },
        36 => {
            proof {
                reveal_strlit("111011011");
                assert("111011011"@ =~= code_text(36));
            }
            "111011011"
        },
        37 => {
            proof {
                reveal_strlit("1011010101");
                assert("1011010101"@ =~= code_text(37));
            }
            "1011010101"
        },
        38 => {
            proof {
                reveal_strlit("1010111011");
                assert("1010111011"@ =~= code_text(38));
            }
            "1010111011"
        },
        39 => {
            proof {
                reveal_strlit("101111111");
                assert("101111111"@ =~= code_text(39));
            }
            "101111111"
        },
        40 => {
            proof {
                reveal_strlit("11111011");
                assert("11111011"@ =~= code_text(40));
            }
            "11111011"
        },
        41 => {
            proof {
                reveal_strlit("11110111");
                assert("11110111"@ =~= code_text(41));
            }
            "11110111"
        },
        42 => {
            proof {
                reveal_strlit("101101111");
                assert("101101111"@ =~= code_text(42));
            }
            "101101111"
        },
        43 => {
            proof {
                reveal_strlit("111011111");
                assert("111011111"@ =~= code_text(43));
            }
            "111011111"
        },
        44 => {
            proof {
                reveal_strlit("1110101");
                assert("1110101"@ =~= code_text(44));
            }
            "1110101"
        },
        45 => {
            proof {
                reveal_strlit("110101");
                assert("110101"@ =~= code_text(45));
            }
            "110101"
        },
        46 => {
            proof {
                reveal_strlit("1010111");
                assert("1010111"@ =~= code_text(46));
            }
            "1010111"
        },
        _ => {
            proof {
                reveal_strlit("110101111");
                assert("110101111"@ =~= code_text(47));
            }
            "110101111"
        },
    }
}

/// Code strings of `0` through `?`.
fn text_digits(c: u8) -> (s: &'static str)
    requires
        48 <= c < 64,
    ensures
        s@ == code_text(c),
{
    reveal_with_fuel(bits_of, 11);
    match c {
        48 => {
            proof {
                reveal_strlit("10110111");
                assert("10110111"@ =~= code_text(48));
            }
            "10110111"
        },
        49 => {
            proof {
                reveal_strlit("10111101");
                assert("10111101"@ =~= code_text(49));
            }
            "10111101"
        },
        50 => {
            proof {
                reveal_strlit("11101101");
                assert("11101101"@ =~= code_text(50));
            }
            "11101101"
        },
        51 => {
            proof {
                reveal_strlit("11111111");
                assert("11111111"@ =~= code_text(51));
            }
            "11111111"
        },
        52 => {
            proof {
                reveal_strlit("101110111");
                assert("101110111"@ =~= code_text(52));
            }
            "101110111"
        },
        53 => {
            proof {
                reveal_strlit("101011011");
                assert("101011011"@ =~= code_text(53));
            }
            "101011011"
        },
        54 => {
            proof {
                reveal_strlit("101101011");
                assert("101101011"@ =~= code_text(54));
            }
            "101101011"
        },
        55 => {
            proof {
                reveal_strlit("110101101");
                assert("110101101"@ =~= code_text(55));
            }
            "110101101"
        },
        56 => {
            proof {
                reveal_strlit("110101011");
                assert("110101011"@ =~= code_text(56));
            }
            "110101011"
        },
        57 => {
            proof {
                reveal_strlit("110110111");
                assert("110110111"@ =~= code_text(57));
            }
            "110110111"
        },
        58 => {
            proof {
                reveal_strlit("11110101");
                assert("11110101"@ =~= code_text(58));
            }
            "11110101"
        },
        59 => {
            proof {
                reveal_strlit("110111101");
                assert("110111101"@ =~= code_text(59));
            }
            "110111101"
        },
        60 => {
            proof {
                reveal_strlit("111101101");
                assert("111101101"@ =~= code_text(60));
            }
            "111101101"
        },
        61 => {
            proof {
                reveal_strlit("1010101");
                assert("1010101"@ =~= code_text(61));
            }
            "1010101"
        },
        62 => {
            proof {
                reveal_strlit("111010111");
                assert("111010111"@ =~= code_text(62));
            }
            "111010111"
        },
        _ => {
            proof {
                reveal_strlit("1010101111");
                assert("1010101111"@ =~= code_text(63));
            }
            "1010101111"
        },
    }
}

/// Code strings of `@` through `O`.
fn text_upper_low(c: u8) -> (s: &'static str)
    requires
        64 <= c < 80,
    ensures
        s@ == code_text(c),
{
    reveal_with_fuel(bits_of, 11);
    match c {
        64 => {
            proof {
                reveal_strlit("1010111101");
                assert("1010111101"@ =~= code_text(64));
            }
            "1010111101"
        },
        65 => {
            proof {
                reveal_strlit("1111101");
                assert("1111101"@ =~= code_text(65));
            }
            "1111101"
        },
        66 => {
            proof {
                reveal_strlit("11101011");
                assert("11101011"@ =~= code_text(66));
            }
            "11101011"
        },
        67 => {
            proof {
                reveal_strlit("10101101");
                assert("10101101"@ =~= code_text(67));
            }
            "10101101"
        },
        68 => {
            proof {
                reveal_strlit("10110101");
                assert("10110101"@ =~= code_text(68));
            }
            "10110101"
        },
        69 => {
            proof {
                reveal_strlit("1110111");
                assert("1110111"@ =~= code_text(69));
            }
            "1110111"
        },
        70 => {
            proof {
                reveal_strlit("11011011");
                assert("11011011"@ =~= code_text(70));
            }
            "11011011"
        },
        71 => {
            proof {
                reveal_strlit("11111101");
                assert("11111101"@ =~= code_text(71));
            }
            "11111101"
        },
        72 => {
            proof {
                reveal_strlit("101010101");
                assert("101010101"@ =~= code_text(72));
            }
            "101010101"
        },
        73 => {
            proof {
                reveal_strlit("1111111");
                assert("1111111"@ =~= code_text(73));
            }
            "1111111"
        },
        74 => {
            proof {
                reveal_strlit("111111101");
                assert("111111101"@ =~= code_text(74));
            }
            "111111101"
        },
        75 => {
            proof {
                reveal_strlit("101111101");
                assert("101111101"@ =~= code_text(75));
            }
            "101111101"
        },
        76 => {
            proof {
                reveal_strlit("11010111");
                assert("11010111"@ =~= code_text(76));
            }
            "11010111"
        },
        77 => {
            proof {
                reveal_strlit("10111011");
                assert("10111011"@ =~= code_text(77));
            }
            "10111011"
        },
        78 => {
            proof {
                reveal_strlit("11011101");
                assert("11011101"@ =~= code_text(78));
            }
            "11011101"
        },
        _ => {
            proof {
                reveal_strlit("10101011");
                assert("10101011"@ =~= code_text(79));
            }
            "10101011"
        },
    }
}

/// Code strings of `P` through `_`.
fn text_upper_high(c: u8) -> (s: &'static str)
    requires
        80 <= c < 96,
    ensures
        s@ == code_text(c),
{
    reveal_with_fuel(bits_of, 11);
    match c {
        80 => {
            proof {
                reveal_strlit("11010101");
                assert("11010101"@ =~= code_text(80));
            }
            "11010101"
        },
        81 => {
            proof {
                reveal_strlit("111011101");
                assert("111011101"@ =~= code_text(81));
            }
            "111011101"
        },
        82 => {
            proof {
                reveal_strlit("10101111");
                assert("10101111"@ =~= code_text(82));
            }
            "10101111"
        },
        83 => {
            proof {
                reveal_strlit("1101111");
                assert("1101111"@ =~= code_text(83));
            }
            "1101111"
        },
        84 => {
            proof {
                reveal_strlit("1101101");
                assert("1101101"@ =~= code_text(84));
            }
            "1101101"
        },
        85 => {
            proof {
                reveal_strlit("101010111");
                assert("101010111"@ =~= code_text(85));
            }
            "101010111"
        },
        86 => {
            proof {
                reveal_strlit("110110101");
                assert("110110101"@ =~= code_text(86));
            }
            "110110101"
        },
        87 => {
            proof {
                reveal_strlit("101011101");
                assert("101011101"@ =~= code_text(87));
            }
            "101011101"
        },
        88 => {
            proof {
                reveal_strlit("101110101");
                assert("101110101"@ =~= code_text(88));
            }
            "101110101"
        },
        89 => {
            proof {
                reveal_strlit("101111011");
                assert("101111011"@ =~= code_text(89));
            }
            "101111011"
        },
        90 => {
            proof {
                reveal_strlit("1010101101");
                assert("1010101101"@ =~= code_text(90));
            }
            "1010101101"
        },
        91 => {
            proof {
                reveal_strlit("111110111");
                assert("111110111"@ =~= code_text(91));
            }
            "111110111"
        },
        92 => {
            proof {
                reveal_strlit("111101111");
                assert("111101111"@ =~= code_text(92));
            }
            "111101111"
        },
        93 => {
            proof {
                reveal_strlit("111111011");
                assert("111111011"@ =~= code_text(93));
            }
            "111111011"
        },
        94 => {
            proof {
                reveal_strlit("1010111111");
                assert("1010111111"@ =~= code_text(94));
            }
            "1010111111"
        },
        _ => {
            proof {
                reveal_strlit("101101101");
                assert("101101101"@ =~= code_text(95));
            }
            "101101101"
        },
    }
}

/// Code strings of `` ` `` through `o`.
fn text_lower_low(c: u8) -> (s: &'static str)
    requires
        96 <= c < 112,
    ensures
        s@ == code_text(c),
{
    reveal_with_fuel(bits_of, 11);
    match c {
        96 => {
            proof {
                reveal_strlit("1011011111");
                assert("1011011111"@ =~= code_text(96));
            }
            "1011011111"
        },
        97 => {
            proof {
                reveal_strlit("1011");
                assert("1011"@ =~= code_text(97));
            }
            "1011"
        },
        98 => {
            proof {
                reveal_strlit("1011111");
                assert("1011111"@ =~= code_text(98));
            }
            "1011111"
        },
        99 => {
            proof {
                reveal_strlit("101111");
                assert("101111"@ =~= code_text(99));
            }
            "101111"
        },
        100 => {
            proof {
                reveal_strlit("101101");
                assert("101101"@ =~= code_text(100));
            }
            "101101"
        },
        101 => {
            proof {
                reveal_strlit("11");
                assert("11"@ =~= code_text(101));
            }
            "11"
        },
        102 => {
            proof {
                reveal_strlit("111101");
                assert("111101"@ =~= code_text(102));
            }
            "111101"
        },
        103 => {
            proof {
                reveal_strlit("1011011");
                assert("1011011"@ =~= code_text(103));
            }
            "1011011"
        },
        104 => {
            proof {
                reveal_strlit("101011");
                assert("101011"@ =~= code_text(104));
            }
            "101011"
        },
        105 => {
            proof {
                reveal_strlit("1101");
                assert("1101"@ =~= code_text(105));
            }
            "1101"
        },
        106 => {
            proof {
                reveal_strlit("111101011");
                assert("111101011"@ =~= code_text(106));
            }
            "111101011"
        },
        107 => {
            proof {
                reveal_strlit("10111111");
                assert("10111111"@ =~= code_text(107));
            }
            "10111111"
        },
        108 => {
            proof {
                reveal_strlit("11011");
                assert("11011"@ =~= code_text(108));
            }
            "11011"
        },
        109 => {
            proof {
                reveal_strlit("111011");
                assert("111011"@ =~= code_text(109));
            }
            "111011"
        },
        110 => {
            proof {
                reveal_strlit("1111");
                assert("1111"@ =~= code_text(110));
            }
            "1111"
        },
        _ => {
            proof {
                reveal_strlit("111");
                assert("111"@ =~= code_text(111));
            }
            "111"
        },
    }
}

/// Code strings of `p` through DEL.
fn text_lower_high(c: u8) -> (s: &'static str)
    requires
        112 <= c < 128,
    ensures
        s@ == code_text(c),
{
    reveal_with_fuel(bits_of, 11);
    match c {
        112 => {
            proof {
                reveal_strlit("111111");
                assert("111111"@ =~= code_text(112));
            }
            "111111"
        },
        113 => {
            proof {
                reveal_strlit("110111111");
                assert("110111111"@ =~= code_text(113));
            }
            "110111111"
        },
        114 => {
            proof {
                reveal_strlit("10101");
                assert("10101"@ =~= code_text(114));
            }
            "10101"
        },
        115 => {
            proof {
                reveal_strlit("10111");
                assert("10111"@ =~= code_text(115));
            }
            "10111"
        },
        116 => {
            proof {
                reveal_strlit("101");
                assert("101"@ =~= code_text(116));
            }
            "101"
        },
        117 => {
            proof {
                reveal_strlit("110111");
                assert("110111"@ =~= code_text(117));
            }
            "110111"
        },
        118 => {
            proof {
                reveal_strlit("1111011");
                assert("1111011"@ =~= code_text(118));
            }
            "1111011"
        },
        119 => {
            proof {
                reveal_strlit("1101011");
                assert("1101011"@ =~= code_text(119));
            }
            "1101011"
        },
        120 => {
            proof {
                reveal_strlit("11011111");
                assert("11011111"@ =~= code_text(120));
            }
            "11011111"
        },
        121 => {
            proof {
                reveal_strlit("1011101");
                assert("1011101"@ =~= code_text(121));
            }
            "1011101"
        },
        122 => {
            proof {
                reveal_strlit("111010101");
                assert("111010101"@ =~= code_text(122));
            }
            "111010101"
        },
        123 => {
            proof {
                reveal_strlit("1010110111");
                assert("1010110111"@ =~= code_text(123));
            }
            "1010110111"
        },
        124 => {
            proof {
                reveal_strlit("110111011");
                assert("110111011"@ =~= code_text(124));
            }
            "110111011"
        },
        125 => {
            proof {
                reveal_strlit("1010110101");
                assert("1010110101"@ =~= code_text(125));
            }
            "1010110101"
        },
        126 => {
            proof {
                reveal_strlit("1011010111");
                assert("1011010111"@ =~= code_text(126));
            }
            "1011010111"
        },
        _ => {
            proof {
                reveal_strlit("1110110101");
                assert("1110110101"@ =~= code_text(127));
            }
            "1110110101"
        },
    }
}

/// The code of an ASCII codepoint as a number.
pub(crate) fn word_of(c: u8) -> (w: u16)
    requires
        c < 128,
    ensures
        w == code_word(c),
{
    match c {
        0 => 0b1010101011,
        1 => 0b1011011011,
        2 => 0b1011101101,
        3 => 0b1101110111,
        4 => 0b1011101011,
        5 => 0b1101011111,
        6 => 0b1011101111,
        7 => 0b1011111101,
        8 => 0b1011111111,
        9 => 0b11101111,
        10 => 0b11101,
        11 => 0b1101101111,
        12 => 0b1011011101,
        13 => 0b11111,
        14 => 0b1101110101,
        15 => 0b1110101011,
        16 => 0b1011110111,
        17 => 0b1011110101,
        18 => 0b1110101101,
        19 => 0b1110101111,
        20 => 0b1101011011,
        21 => 0b1101101011,
        22 => 0b1101101101,
        23 => 0b1101010111,
        24 => 0b1101111011,
        25 => 0b1101111101,
        26 => 0b1110110111,
        27 => 0b1101010101,
        28 => 0b1101011101,
        29 => 0b1110111011,
        30 => 0b1011111011,
        31 => 0b1101111111,
        32 => 0b1,
        33 => 0b111111111,
        34 => 0b101011111,
        35 => 0b111110101,
        36 => 0b111011011,
        37 => 0b1011010101,
        38 => 0b1010111011,
        39 => 0b101111111,
        40 => 0b11111011,
        41 => 0b11110111,
        42 => 0b101101111,
        43 => 0b111011111,
        44 => 0b1110101,
        45 => 0b110101,
        46 => 0b1010111,
        47 => 0b110101111,
        48 => 0b10110111,
        49 => 0b10111101,
        50 => 0b11101101,
        51 => 0b11111111,
        52 => 0b101110111,
        53 => 0b101011011,
        54 => 0b101101011,
        55 => 0b110101101,
        56 => 0b110101011,
        57 => 0b110110111,
        58 => 0b11110101,
        59 => 0b110111101,
        60 => 0b111101101,
        61 => 0b1010101,
        62 => 0b111010111,
        63 => 0b1010101111,
        64 => 0b1010111101,
        65 => 0b1111101,
        66 => 0b11101011,
        67 => 0b10101101,
        68 => 0b10110101,
        69 => 0b1110111,
        70 => 0b11011011,
        71 => 0b11111101,
        72 => 0b101010101,
        73 => 0b1111111,
        74 => 0b111111101,
        75 => 0b101111101,
        76 => 0b11010111,
        77 => 0b10111011,
        78 => 0b11011101,
        79 => 0b10101011,
        80 => 0b11010101,
        81 => 0b111011101,
        82 => 0b10101111,
        83 => 0b1101111,
        84 => 0b1101101,
        85 => 0b101010111,
        86 => 0b110110101,
        87 => 0b101011101,
        88 => 0b101110101,
        89 => 0b101111011,
        90 => 0b1010101101,
        91 => 0b111110111,
        92 => 0b111101111,
        93 => 0b111111011,
        94 => 0b1010111111,
        95 => 0b101101101,
        96 => 0b1011011111,
        97 => 0b1011,
        98 => 0b1011111,
        99 => 0b101111,
        100 => 0b101101,
        101 => 0b11,
        102 => 0b111101,
        103 => 0b1011011,
        104 => 0b101011,
        105 => 0b1101,
        106 => 0b111101011,
        107 => 0b10111111,
        108 => 0b11011,
        109 => 0b111011,
        110 => 0b1111,
        111 => 0b111,
        112 => 0b111111,
        113 => 0b110111111,
        114 => 0b10101,
        115 => 0b10111,
        116 => 0b101,
        117 => 0b110111,
        118 => 0b1111011,
        119 => 0b1101011,
        120 => 0b11011111,
        121 => 0b1011101,
        122 => 0b111010101,
        123 => 0b1010110111,
        124 => 0b110111011,
        125 => 0b1010110101,
        126 => 0b1011010111,
        _ => 0b1110110101,
    }
}

/// Shape of every code in the table: one to ten bits, ending in a set bit, with
/// no two clear bits in a row.
pub proof fn lemma_code_shape(c: u8)
    requires
        c < 128,
    ensures
        0 < code_word(c) < 1024,
        code_word(c) % 2 == 1,
        spaced(code_word(c)),
{
    if c < 32 {
        lemma_shape_controls(c);
    } else if c < 64 {
        lemma_shape_symbols(c);
    } else if c < 96 {
        lemma_shape_upper(c);
    } else {
        lemma_shape_lower(c);
    }
    lemma_spaced_below_1024(code_word(c));
}

/// The code of a codepoint has between one and ten bits.
pub proof fn lemma_code_len(c: u8)
    requires
        c < 128,
    ensures
        1 <= code_bits(c).len() <= 10,
{
    lemma_code_shape(c);
    lemma2_to64();
    lemma_bits_len(code_word(c), 10);
    lemma_bits_lead(code_word(c));
}

/// No two codepoints share a code.
pub proof fn lemma_code_distinct(a: u8, b: u8)
    requires
        a < 128,
        b < 128,
        code_word(a) == code_word(b),
    ensures
        a == b,
{
}

/// `spaced` written out for a number of at most ten digits.
spec fn spaced_below_1024(w: nat) -> bool {
    let w1 = w / 2;
    let w2 = w1 / 2;
    let w3 = w2 / 2;
    let w4 = w3 / 2;
    let w5 = w4 / 2;
    let w6 = w5 / 2;
    let w7 = w6 / 2;
    let w8 = w7 / 2;
    &&& w < 2 || w % 4 != 0
    &&& w1 < 2 || w1 % 4 != 0
    &&& w2 < 2 || w2 % 4 != 0
    &&& w3 < 2 || w3 % 4 != 0
    &&& w4 < 2 || w4 % 4 != 0
    &&& w5 < 2 || w5 % 4 != 0
    &&& w6 < 2 || w6 % 4 != 0
    &&& w7 < 2 || w7 % 4 != 0
    &&& w8 < 2 || w8 % 4 != 0
}

/// The written-out form says what `spaced` says.
proof fn lemma_spaced_below_1024(w: nat)
    requires
        w < 1024,
        spaced_below_1024(w),
    ensures
        spaced(w),
{
    reveal_with_fuel(spaced, 11);
}

/// Shape of the codes of the control characters.
proof fn lemma_shape_controls(c: u8)
    requires
        0 <= c < 32,
    ensures
        0 < code_word(c) < 1024,
        code_word(c) % 2 == 1,
        spaced_below_1024(code_word(c)),
{
    match c {
        0 => assert(spaced_below_1024(0b1010101011)),
        1 => assert(spaced_below_1024(0b1011011011)),
        2 => assert(spaced_below_1024(0b1011101101)),
        3 => assert(spaced_below_1024(0b1101110111)),
        4 => assert(spaced_below_1024(0b1011101011)),
        5 => assert(spaced_below_1024(0b1101011111)),
        6 => assert(spaced_below_1024(0b1011101111)),
        7 => assert(spaced_below_1024(0b1011111101)),
        8 => assert(spaced_below_1024(0b1011111111)),
        9 => assert(spaced_below_1024(0b11101111)),
        10 => assert(spaced_below_1024(0b11101)),
        11 => assert(spaced_below_1024(0b1101101111)),
        12 => assert(spaced_below_1024(0b1011011101)),
        13 => assert(spaced_below_1024(0b11111)),
        14 => assert(spaced_below_1024(0b1101110101)),
        15 => assert(spaced_below_1024(0b1110101011)),
        16 => assert(spaced_below_1024(0b1011110111)),
        17 => assert(spaced_below_1024(0b1011110101)),
        18 => assert(spaced_below_1024(0b1110101101)),
        19 => assert(spaced_below_1024(0b1110101111)),
        20 => assert(spaced_below_1024(0b1101011011)),
        21 => assert(spaced_below_1024(0b1101101011)),
        22 => assert(spaced_below_1024(0b1101101101)),
        23 => assert(spaced_below_1024(0b1101010111)),
        24 => assert(spaced_below_1024(0b1101111011)),
        25 => assert(spaced_below_1024(0b1101111101)),
        26 => assert(spaced_below_1024(0b1110110111)),
        27 => assert(spaced_below_1024(0b1101010101)),
        28 => assert(spaced_below_1024(0b1101011101)),
        29 => assert(spaced_below_1024(0b1110111011)),
        30 => assert(spaced_below_1024(0b1011111011)),
        _ => assert(spaced_below_1024(0b1101111111)),
    }
}

/// Shape of the codes of space through `?`.
proof fn lemma_shape_symbols(c: u8)
    requires
        32 <= c < 64,
    ensures
        0 < code_word(c) < 1024,
        code_word(c) % 2 == 1,
        spaced_below_1024(code_word(c)),
{
    match c {
        32 => assert(spaced_below_1024(0b1)),
        33 => assert(spaced_below_1024(0b111111111)),
        34 => assert(spaced_below_1024(0b101011111)),
        35 => assert(spaced_below_1024(0b111110101)),
        36 => assert(spaced_below_1024(0b111011011)),
        37 => assert(spaced_below_1024(0b1011010101)),
        38 => assert(spaced_below_1024(0b1010111011)),
        39 => assert(spaced_below_1024(0b101111111)),
        40 => assert(spaced_below_1024(0b11111011)),
        41 => assert(spaced_below_1024(0b11110111)),
        42 => assert(spaced_below_1024(0b101101111)),
        43 => assert(spaced_below_1024(0b111011111)),
        44 => assert(spaced_below_1024(0b1110101)),
        45 => assert(spaced_below_1024(0b110101)),
        46 => assert(spaced_below_1024(0b1010111)),
        47 => assert(spaced_below_1024(0b110101111)),
        48 => assert(spaced_below_1024(0b10110111)),
        49 => assert(spaced_below_1024(0b10111101)),
        50 => assert(spaced_below_1024(0b11101101)),
        51 => assert(spaced_below_1024(0b11111111)),
        52 => assert(spaced_below_1024(0b101110111)),
        53 => assert(spaced_below_1024(0b101011011)),
        54 => assert(spaced_below_1024(0b101101011)),
        55 => assert(spaced_below_1024(0b110101101)),
        56 => assert(spaced_below_1024(0b110101011)),
        57 => assert(spaced_below_1024(0b110110111)),
        58 => assert(spaced_below_1024(0b11110101)),
        59 => assert(spaced_below_1024(0b110111101)),
        60 => assert(spaced_below_1024(0b111101101)),
        61 => assert(spaced_below_1024(0b1010101)),
        62 => assert(spaced_below_1024(0b111010111)),
        _ => assert(spaced_below_1024(0b1010101111)),
    }
}

/// Shape of the codes of `@` through `_`.
proof fn lemma_shape_upper(c: u8)
    requires
        64 <= c < 96,
    ensures
        0 < code_word(c) < 1024,
        code_word(c) % 2 == 1,
        spaced_below_1024(code_word(c)),
{
    match c {
        64 => assert(spaced_below_1024(0b1010111101)),
        65 => assert(spaced_below_1024(0b1111101)),
        66 => assert(spaced_below_1024(0b11101011)),
        67 => assert(spaced_below_1024(0b10101101)),
        68 => assert(spaced_below_1024(0b10110101)),
        69 => assert(spaced_below_1024(0b1110111)),
        70 => assert(spaced_below_1024(0b11011011)),
        71 => assert(spaced_below_1024(0b11111101)),
        72 => assert(spaced_below_1024(0b101010101)),
        73 => assert(spaced_below_1024(0b1111111)),
        74 => assert(spaced_below_1024(0b111111101)),
        75 => assert(spaced_below_1024(0b101111101)),
        76 => assert(spaced_below_1024(0b11010111)),
        77 => assert(spaced_below_1024(0b10111011)),
        78 => assert(spaced_below_1024(0b11011101)),
        79 => assert(spaced_below_1024(0b10101011)),
        80 => assert(spaced_below_1024(0b11010101)),
        81 => assert(spaced_below_1024(0b111011101)),
        82 => assert(spaced_below_1024(0b10101111)),
        83 => assert(spaced_below_1024(0b1101111)),
        84 => assert(spaced_below_1024(0b1101101)),
        85 => assert(spaced_below_1024(0b101010111)),
        86 => assert(spaced_below_1024(0b110110101)),
        87 => assert(spaced_below_1024(0b101011101)),
        88 => assert(spaced_below_1024(0b101110101)),
        89 => assert(spaced_below_1024(0b101111011)),
        90 => assert(spaced_below_1024(0b1010101101)),
        91 => assert(spaced_below_1024(0b111110111)),
        92 => assert(spaced_below_1024(0b111101111)),
        93 => assert(spaced_below_1024(0b111111011)),
        94 => assert(spaced_below_1024(0b1010111111)),
        _ => assert(spaced_below_1024(0b101101101)),
    }
}

/// Shape of the codes of `` ` `` through DEL.
proof fn lemma_shape_lower(c: u8)
    requires
        96 <= c < 128,
    ensures
        0 < code_word(c) < 1024,
        code_word(c) % 2 == 1,
        spaced_below_1024(code_word(c)),
{
    match c {
        96 => assert(spaced_below_1024(0b1011011111)),
        97 => assert(spaced_below_1024(0b1011)),
        98 => assert(spaced_below_1024(0b1011111)),
        99 => assert(spaced_below_1024(0b101111)),
        100 => assert(spaced_below_1024(0b101101)),
        101 => assert(spaced_below_1024(0b11)),
        102 => assert(spaced_below_1024(0b111101)),
        103 => assert(spaced_below_1024(0b1011011)),
        104 => assert(spaced_below_1024(0b101011)),
        105 => assert(spaced_below_1024(0b1101)),
        106 => assert(spaced_below_1024(0b111101011)),
        107 => assert(spaced_below_1024(0b10111111)),
        108 => assert(spaced_below_1024(0b11011)),
        109 => assert(spaced_below_1024(0b111011)),
        110 => assert(spaced_below_1024(0b1111)),
        111 => assert(spaced_below_1024(0b111)),
        112 => assert(spaced_below_1024(0b111111)),
        113 => assert(spaced_below_1024(0b110111111)),
        114 => assert(spaced_below_1024(0b10101)),
        115 => assert(spaced_below_1024(0b10111)),
        116 => assert(spaced_below_1024(0b101)),
        117 => assert(spaced_below_1024(0b110111)),
        118 => assert(spaced_below_1024(0b1111011)),
        119 => assert(spaced_below_1024(0b1101011)),
        120 => assert(spaced_below_1024(0b11011111)),
        121 => assert(spaced_below_1024(0b1011101)),
        122 => assert(spaced_below_1024(0b111010101)),
        123 => assert(spaced_below_1024(0b1010110111)),
        124 => assert(spaced_below_1024(0b110111011)),
        125 => assert(spaced_below_1024(0b1010110101)),
        126 => assert(spaced_below_1024(0b1011010111)),
        _ => assert(spaced_below_1024(0b1110110101)),
    }
}

} // verus!
