//! Strings as character sequences: comparison, joining and decimal numerals.

use vstd::prelude::*;
use vstd::string::*;
use vstd::utf8::*;

verus! {

/// Whether two strings hold the same characters.
pub fn same_text(a: &str, b: &str) -> (same: bool)
    ensures
        same == (a@ == b@),
{
    let x = a.as_bytes();
    let y = b.as_bytes();
    proof {
        encode_utf8_decode_utf8(a@);
        encode_utf8_decode_utf8(b@);
    }
    if x.len() != y.len() {
        return false;
    }
    let mut i: usize = 0;
    while i < x.len()
        invariant
            i <= x.len(),
            x.len() == y.len(),
            x@ == a.spec_bytes(),
            y@ == b.spec_bytes(),
            forall|k: int| 0 <= k < i ==> x@[k] == y@[k],
        decreases x.len() - i,
    {
        if x[i] != y[i] {
            return false;
        }
        i += 1;
    }
    assert(x@ =~= y@);
    true
}

/// `head` and `tail` joined into one string.
pub fn join2(head: &str, tail: &str) -> (joined: String)
    ensures
        joined@ == head@ + tail@,
{
    let mut joined = String::from_str(head);
    joined.append(tail);
    joined
}

/// `head`, `body` and `tail` joined into one string.
pub fn join3(head: &str, body: &str, tail: &str) -> (joined: String)
    ensures
        joined@ == head@ + body@ + tail@,
{
    let mut joined = String::from_str(head);
    joined.append(body);
    joined.append(tail);
    joined
}

/// The character of a decimal digit.
pub open spec fn digit_char(d: nat) -> char
    recommends
        d < 10,
{
    if d == 0 {
        '0'
    } else if d == 1 {
        '1'
    } else if d == 2 {
        '2'
    } else if d == 3 {
        '3'
    } else if d == 4 {
        '4'
    } else if d == 5 {
        '5'
    } else if d == 6 {
        '6'
    } else if d == 7 {
        '7'
    } else if d == 8 {
        '8'
    } else {
        '9'
    }
}

/// Whether `c` is one of the ten decimal digits.
pub open spec fn is_digit(c: char) -> bool {
    '0' <= c <= '9'
}

/// The value of a decimal digit character.
pub open spec fn digit_value(c: char) -> nat
    recommends
        is_digit(c),
{
    (c as u32 - '0' as u32) as nat
}

/// The decimal numeral of `n`, padded with zeros on the left to at least
/// `width` characters.
pub open spec fn decimal(n: nat, width: nat) -> Seq<char>
    decreases n, width,
{
    if n < 10 && width <= 1 {
        seq![digit_char(n)]
    } else {
        decimal(n / 10, less_one(width)).push(digit_char(n % 10))
    }
}

/// `width - 1`, or 0 where `width` is 0.
pub open spec fn less_one(width: nat) -> nat {
    if width > 0 {
        (width - 1) as nat
    } else {
        0
    }
}

/// Whether `s` consists of decimal digits only.
pub open spec fn all_digits(s: Seq<char>) -> bool {
    forall|i: int| 0 <= i < s.len() ==> is_digit(#[trigger] s[i])
}

/// The number that a string of decimal digits stands for.
pub open spec fn numeral_value(s: Seq<char>) -> nat
    decreases s.len(),
{
    if s.len() == 0 {
        0
    } else {
        10 * numeral_value(s.drop_last()) + digit_value(s.last())
    }
}

/// The string of one decimal digit.
fn digit_str(d: u8) -> (s: &'static str)
    requires
        d < 10,
    ensures
        s@ == seq![digit_char(d as nat)],
{
    proof {
        reveal_strlit("0");
        reveal_strlit("1");
        reveal_strlit("2");
        reveal_strlit("3");
        reveal_strlit("4");
        reveal_strlit("5");
        reveal_strlit("6");
        reveal_strlit("7");
        reveal_strlit("8");
        reveal_strlit("9");
    }
    let s = match d {
        0 => "0",
        1 => "1",
        2 => "2",
        3 => "3",
        4 => "4",
        5 => "5",
        6 => "6",
        7 => "7",
        8 => "8",
        _ => "9",
    };
    assert(s@ =~= seq![digit_char(d as nat)]);
    s
}

/// The characters of a sequence of digit values, last value first.
pub open spec fn reversed_digits(low_first: Seq<u8>) -> Seq<char> {
    Seq::new(low_first.len(), |i: int| digit_char(low_first[low_first.len() - 1 - i] as nat))
}

/// Writes `n` in decimal, padded with zeros on the left to at least `width`
/// characters, at the end of `out`.
pub fn push_decimal(out: &mut String, n: u64, width: usize)
    ensures
        final(out)@ == old(out)@ + decimal(n as nat, width as nat),
{
    let mut low_first: Vec<u8> = Vec::new();
    let mut rest: u64 = n;
    let mut left: usize = width;
    while !(rest < 10 && left <= 1)
        invariant
            decimal(n as nat, width as nat) == decimal(rest as nat, left as nat) + reversed_digits(
                low_first@,
            ),
            forall|i: int| 0 <= i < low_first.len() ==> low_first[i] < 10,
        decreases rest, left,
    {
        let ghost before = low_first@;
        let ghost higher = decimal((rest / 10) as nat, less_one(left as nat));
        assert(decimal(rest as nat, left as nat) == higher.push(digit_char((rest % 10) as nat)));
        low_first.push((rest % 10) as u8);
        proof {
            assert(reversed_digits(low_first@) =~= seq![digit_char((rest % 10) as nat)]
                + reversed_digits(before));
            assert(higher.push(digit_char((rest % 10) as nat)) + reversed_digits(before) =~= higher
                + reversed_digits(low_first@));
        }
        rest = rest / 10;
        if left > 0 {
            left = left - 1;
        }
    }
    let ghost start = out@;
    out.append(digit_str(rest as u8));
    let mut i: usize = low_first.len();
    while i > 0
        invariant
            i <= low_first.len(),
            rest < 10,
            forall|k: int| 0 <= k < low_first.len() ==> low_first[k] < 10,
            out@ == start + seq![digit_char(rest as nat)] + reversed_digits(low_first@).take(
                low_first.len() - i,
            ),
        decreases i,
    {
        i -= 1;
        let ghost sofar = out@;
        out.append(digit_str(low_first[i]));
        proof {
            let all = reversed_digits(low_first@);
            let done = low_first.len() - i;
            assert(all.take(done) =~= all.take(done - 1).push(all[done - 1]));
            assert(out@ =~= start + seq![digit_char(rest as nat)] + all.take(done));
        }
    }
    proof {
        let all = reversed_digits(low_first@);
        assert(all.take(low_first.len() as int) =~= all);
        assert(out@ =~= start + (seq![digit_char(rest as nat)] + all));
    }
}

/// Ten to the power of `k`.
pub open spec fn pow10(k: nat) -> nat
    decreases k,
{
    if k == 0 {
        1
    } else {
        10 * pow10((k - 1) as nat)
    }
}

/// A numeral of `k` digits stands for a number below ten to the `k`.
pub proof fn lemma_numeral_bound(digits: Seq<char>)
    requires
        all_digits(digits),
    ensures
        numeral_value(digits) < pow10(digits.len()),
    decreases digits.len(),
{
    if digits.len() > 0 {
        lemma_numeral_bound(digits.drop_last());
        assert(is_digit(digits.last()));
    }
}


/// The numeral of a number below ten to the `width` has exactly `width`
/// characters.
pub proof fn lemma_decimal_width(n: nat, width: nat)
    requires
        width >= 1,
        n < pow10(width),
    ensures
        decimal(n, width).len() == width,
    decreases n, width,
{
    reveal_with_fuel(pow10, 2);
    if !(n < 10 && width <= 1) {
        if width == 1 {
            assert(pow10(1) == 10);
        } else {
            lemma_decimal_width(n / 10, less_one(width));
        }
    }
}

/// A numeral holds decimal digits only.
pub proof fn lemma_decimal_digits(n: nat, width: nat)
    ensures
        all_digits(decimal(n, width)),
    decreases n, width,
{
    if !(n < 10 && width <= 1) {
        lemma_decimal_digits(n / 10, less_one(width));
        let higher = decimal(n / 10, less_one(width));
        assert forall|i: int| 0 <= i < decimal(n, width).len() implies is_digit(
            #[trigger] decimal(n, width)[i],
        ) by {
            if i < higher.len() {
                assert(is_digit(higher[i]));
            }
        }
    }
}

/// Reading a numeral gives the number back.
pub proof fn lemma_decimal_value(n: nat, width: nat)
    ensures
        numeral_value(decimal(n, width)) == n,
    decreases n, width,
{
    if n < 10 && width <= 1 {
        assert(seq![digit_char(n)].drop_last() =~= Seq::<char>::empty());
        assert(numeral_value(seq![digit_char(n)]) == 10 * numeral_value(Seq::<char>::empty())
            + digit_value(digit_char(n)));
    } else {
        lemma_decimal_value(n / 10, less_one(width));
        let higher = decimal(n / 10, less_one(width));
        assert(higher.push(digit_char(n % 10)).drop_last() =~= higher);
    }
}

} // verus!
