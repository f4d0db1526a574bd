//! From the characters of a reply to a typed response.
//!
//! The radio answers a query with the query's own prefix, so the command that
//! was sent decides how the reply is read.

use super::encode::{encode, wire};
use super::{mode_name, mode_name_of, CatCommand, CatResponse, Command, Response};
use crate::domain::error::{outcome, Fault, Psk31Error, Psk31Result};
use crate::text::{all_digits, is_digit, join3, lemma_numeral_bound, numeral_value, pow10, same_text};
use vstd::prelude::*;
use vstd::string::*;
use vstd::utf8::is_ascii_chars;

verus! {

/// The radio's refusal: a question mark, with or without the terminator.
pub open spec fn is_nak(reply: Seq<char>) -> bool {
    reply == "?"@ || reply == "?;"@
}

/// Where `reply` is made of ASCII characters and is `prefix`, then `n`
/// characters, then the terminator `;`: those `n` characters.
pub open spec fn body_of(reply: Seq<char>, prefix: Seq<char>, n: nat) -> Option<Seq<char>> {
    if is_ascii_chars(reply) && reply.len() == prefix.len() + n + 1 && reply.subrange(
        0,
        prefix.len() as int,
    ) == prefix && reply.subrange(reply.len() - 1, reply.len() as int) == ";"@ {
        Some(reply.subrange(prefix.len() as int, reply.len() - 1))
    } else {
        None
    }
}

/// The number in a reply that is `prefix`, then `n` decimal digits, then `;`.
pub open spec fn number_of(reply: Seq<char>, prefix: Seq<char>, n: nat) -> Option<nat> {
    match body_of(reply, prefix, n) {
        Some(body) => if all_digits(body) {
            Some(numeral_value(body))
        } else {
            None
        },
        None => None,
    }
}

/// Whether `reply` acknowledges a command that asks for no data.
pub open spec fn is_ack(reply: Seq<char>) -> bool {
    reply == ";"@ || reply.len() == 0
}

/// Description of a refusal of `cmd` by the radio.
pub open spec fn nak_text(cmd: Command) -> Seq<char> {
    "Radio NAK for command '"@ + wire(cmd) + "': response was '?'"@
}

/// Description of a reply that is no frequency.
pub open spec fn bad_frequency_text(reply: Seq<char>) -> Seq<char> {
    "Invalid frequency response: '"@ + reply + "'"@
}

/// Description of a reply that is no mode.
pub open spec fn bad_mode_text(reply: Seq<char>) -> Seq<char> {
    "Invalid mode response: '"@ + reply + "'"@
}

/// Description of a mode code that the mode table does not hold.
pub open spec fn unknown_mode_text(code: Seq<char>) -> Seq<char> {
    "Unknown mode code: '"@ + code + "'"@
}

/// Description of a reply that is no transmit power.
pub open spec fn bad_power_text(reply: Seq<char>) -> Seq<char> {
    "Invalid TX power response: '"@ + reply + "'"@
}

/// Description of a reply that should have been an acknowledgement of `cmd`.
pub open spec fn bad_ack_text(cmd: Command, reply: Seq<char>) -> Seq<char> {
    "Expected Ack (';') for '"@ + wire(cmd) + "', got: '"@ + reply + "'"@
}

/// What a frequency query's reply means: `FA`, eleven digits, `;`.
pub open spec fn decoded_frequency(reply: Seq<char>) -> Result<Response, Fault> {
    match number_of(reply, "FA"@, 11) {
        Some(hz) => Ok(Response::FrequencyHz(hz as u64)),
        None => Err(Fault::Cat(bad_frequency_text(reply))),
    }
}

/// What a mode query's reply means: `MD0`, one code of the mode table, `;`.
pub open spec fn decoded_mode(reply: Seq<char>) -> Result<Response, Fault> {
    match body_of(reply, "MD0"@, 1) {
        Some(code) => match mode_name_of(code) {
            Some(name) => Ok(Response::Mode(name)),
            None => Err(Fault::Cat(unknown_mode_text(code))),
        },
        None => Err(Fault::Cat(bad_mode_text(reply))),
    }
}

/// What a power query's reply means: `PC`, three digits, `;`.
pub open spec fn decoded_power(reply: Seq<char>) -> Result<Response, Fault> {
    match number_of(reply, "PC"@, 3) {
        Some(watts) => Ok(Response::TxPower(watts as u32)),
        None => Err(Fault::Cat(bad_power_text(reply))),
    }
}

/// What the reply to a command that asks for no data means: `;` or nothing.
pub open spec fn decoded_ack(reply: Seq<char>, cmd: Command) -> Result<Response, Fault> {
    if is_ack(reply) {
        Ok(Response::Ack)
    } else {
        Err(Fault::Cat(bad_ack_text(cmd, reply)))
    }
}

/// What `reply` means as the answer to `cmd`.
pub open spec fn decoded(reply: Seq<char>, cmd: Command) -> Result<Response, Fault> {
    if is_nak(reply) {
        Err(Fault::Cat(nak_text(cmd)))
    } else {
        match cmd {
            Command::GetFrequencyA => decoded_frequency(reply),
            Command::GetMode => decoded_mode(reply),
            Command::GetTxPower => decoded_power(reply),
            _ => decoded_ack(reply, cmd),
        }
    }
}

/// The `n` characters between `prefix` and the terminator, where the reply has
/// that shape.
fn reply_body<'a>(reply: &'a str, prefix: &str, n: usize) -> (body: Option<&'a str>)
    requires
        n <= 18,
        prefix.is_ascii(),
        prefix@.len() <= 18,
    ensures
        match body {
            Some(found) => body_of(reply@, prefix@, n as nat) == Some(found@) && found.is_ascii()
                && found@.len() == n,
            None => body_of(reply@, prefix@, n as nat) is None,
        },
{
    proof {
        reveal_strlit(";");
    }
    broadcast use vstd::string::is_ascii_spec_bytes;

    if !reply.is_ascii() {
        return None;
    }
    let head: usize = prefix.len();
    let len: usize = reply.as_bytes().len();
    if len != head + n + 1 {
        return None;
    }
    if !same_text(reply.substring_ascii(0, head), prefix) {
        return None;
    }
    if !same_text(reply.substring_ascii(len - 1, len), ";") {
        return None;
    }
    Some(reply.substring_ascii(head, len - 1))
}

/// Powers of ten up to the eighteenth fit in 64 bits.
proof fn lemma_pow10_fits(k: nat)
    requires
        k <= 18,
    ensures
        pow10(k) <= 1_000_000_000_000_000_000,
{
    reveal_with_fuel(pow10, 20);
}

/// The number that `digits` stands for, where it holds decimal digits only.
fn parse_numeral(digits: &str) -> (value: Option<u64>)
    requires
        digits.is_ascii(),
        digits@.len() <= 18,
    ensures
        match value {
            Some(n) => all_digits(digits@) && n == numeral_value(digits@),
            None => !all_digits(digits@),
        },
{
    broadcast use vstd::string::is_ascii_spec_bytes;

    let len: usize = digits.len();
    let mut value: u64 = 0;
    let mut i: usize = 0;
    while i < len
        invariant
            i <= len,
            len == digits@.len(),
            len <= 18,
            digits.is_ascii(),
            all_digits(digits@.take(i as int)),
            value == numeral_value(digits@.take(i as int)),
        decreases len - i,
    {
        let byte = digits.get_ascii(i);
        let ghost c = digits@[i as int];
        proof {
            assert(digits@.take(i + 1).drop_last() =~= digits@.take(i as int));
            assert(digits@.take(i + 1).last() == c);
        }
        if byte < 48 || byte > 57 {
            proof {
                assert(!is_digit(c));
            }
            return None;
        }
        proof {
            assert(is_digit(c));
            assert forall|k: int| 0 <= k < i + 1 implies is_digit(
                #[trigger] digits@.take(i + 1)[k],
            ) by {
                if k < i {
                    assert(digits@.take(i as int)[k] == digits@[k]);
                }
            }
            lemma_numeral_bound(digits@.take(i as int));
            lemma_pow10_fits(i as nat);
        }
        value = value * 10 + (byte - 48) as u64;
        i += 1;
    }
    proof {
        assert(digits@.take(len as int) =~= digits@);
    }
    Some(value)
}

/// Reads the reply to a frequency query: `FA`, eleven digits, `;`.
pub fn parse_frequency(response: &str) -> (result: Psk31Result<CatResponse>)
    ensures
        outcome(result) == decoded_frequency(response@),
{
    proof {
        reveal_strlit("FA");
    }
    let parsed = match reply_body(response, "FA", 11) {
        Some(body) => parse_numeral(body),
        None => None,
    };
    match parsed {
        Some(hz) => Ok(CatResponse::FrequencyHz(hz)),
        None => Err(Psk31Error::Cat(join3("Invalid frequency response: '", response, "'"))),
    }
}

/// Reads the reply to a mode query: `MD0`, a code of the mode table, `;`.
pub fn parse_mode(response: &str) -> (result: Psk31Result<CatResponse>)
    ensures
        outcome(result) == decoded_mode(response@),
{
    proof {
        reveal_strlit("MD0");
    }
    match reply_body(response, "MD0", 1) {
        Some(code) => match mode_name(code) {
            Some(name) => Ok(CatResponse::Mode(String::from_str(name))),
            None => Err(Psk31Error::Cat(join3("Unknown mode code: '", code, "'"))),
        },
        None => Err(Psk31Error::Cat(join3("Invalid mode response: '", response, "'"))),
    }
}

/// Reads the reply to a power query: `PC`, three digits, `;`.
pub fn parse_tx_power(response: &str) -> (result: Psk31Result<CatResponse>)
    ensures
        outcome(result) == decoded_power(response@),
{
    proof {
        reveal_strlit("PC");
    }
    let parsed = match reply_body(response, "PC", 3) {
        Some(body) => parse_numeral(body),
        None => None,
    };
    match parsed {
        Some(watts) => {
            proof {
                lemma_numeral_bound(body_of(response@, "PC"@, 3).unwrap());
                reveal_with_fuel(pow10, 4);
            }
            Ok(CatResponse::TxPower(watts as u32))
        },
        None => Err(Psk31Error::Cat(join3("Invalid TX power response: '", response, "'"))),
    }
}

/// Reads the reply to a command that asks for no data: `;`, or nothing.
pub fn expect_ack(response: &str, cmd: &CatCommand) -> (result: Psk31Result<CatResponse>)
    ensures
        outcome(result) == decoded_ack(response@, cmd@),
{
    if same_text(response, ";") || response.is_empty() {
        Ok(CatResponse::Ack)
    } else {
        let sent = encode(cmd);
        let mut text = join3("Expected Ack (';') for '", sent.as_str(), "', got: '");
        text.append(response);
        text.append("'");
        Err(Psk31Error::Cat(text))
    }
}

/// Decodes the reply to `cmd`.
///
/// A reply of `?` or `?;` is the radio's refusal and an error. A query is
/// answered by its prefix, a value of fixed width and the terminator: `FA` and
/// eleven digits, `MD0` and a mode code, `PC` and three digits. Every other
/// command is answered by `;` alone, or by nothing. Anything else is an error
/// that quotes the reply.
pub fn decode(response: &str, cmd: &CatCommand) -> (result: Psk31Result<CatResponse>)
    ensures
        outcome(result) == decoded(response@, cmd@),
{
    if same_text(response, "?") || same_text(response, "?;") {
        let sent = encode(cmd);
        return Err(
            Psk31Error::Cat(
                join3("Radio NAK for command '", sent.as_str(), "': response was '?'"),
            ),
        );
    }
    match cmd {
        CatCommand::GetFrequencyA => parse_frequency(response),
        CatCommand::GetMode => parse_mode(response),
        CatCommand::GetTxPower => parse_tx_power(response),
        _ => expect_ack(response, cmd),
    }
}

} // verus!
