//! What encoding and decoding promise of each other.

use super::decode::{body_of, decoded, is_ack, is_nak, number_of};
use super::encode::{wire, wire_mode_code};
use super::session::{
    buffered, concluded, delivered, gathered, interpreted, ExchangeView, ReadEvent,
    RESPONSE_TIMEOUT_READS, TERMINATOR,
};
use super::{lemma_mode_table_lookup, mode_code_of, mode_entry, Command, Response, MODE_COUNT};
use crate::domain::error::Fault;
use crate::text::{
    all_digits, decimal, is_digit, lemma_decimal_digits, lemma_decimal_value, lemma_decimal_width,
    pow10,
};
use vstd::prelude::*;
use vstd::utf8::{
    encode_utf8, encode_utf8_decode_utf8, encode_utf8_valid_utf8, is_ascii_chars,
    is_ascii_chars_encode_utf8,
};

verus! {

/// A prefix of two or three ASCII letters or digits, a numeral of `width`
/// digits and the terminator are read back as the numeral's value.
proof fn lemma_number_round_trip(prefix: Seq<char>, n: nat, width: nat)
    requires
        width >= 1,
        n < pow10(width),
        is_ascii_chars(prefix),
        prefix.len() >= 2,
        prefix[0] != '?',
    ensures
        (prefix + decimal(n, width) + ";"@).len() == prefix.len() + width + 1,
        !is_nak(prefix + decimal(n, width) + ";"@),
        number_of(prefix + decimal(n, width) + ";"@, prefix, width) == Some(n),
{
    reveal_strlit(";");
    reveal_strlit("?");
    reveal_strlit("?;");
    let digits = decimal(n, width);
    let reply = prefix + digits + ";"@;
    lemma_decimal_width(n, width);
    lemma_decimal_digits(n, width);
    lemma_decimal_value(n, width);
    assert(reply[0] == prefix[0]);
    assert forall|i: int| 0 <= i < reply.len() implies '\0' <= #[trigger] reply[i]
        <= '\u{7f}' by {
        if i < prefix.len() {
            assert(reply[i] == prefix[i]);
        } else if i < prefix.len() + width {
            assert(reply[i] == digits[i - prefix.len()]);
            assert(is_digit(digits[i - prefix.len()]));
        }
    }
    assert(reply.subrange(0, prefix.len() as int) =~= prefix);
    assert(reply.subrange(reply.len() - 1, reply.len() as int) =~= ";"@);
    assert(reply.subrange(prefix.len() as int, reply.len() - 1) =~= digits);
    assert(body_of(reply, prefix, width) == Some(digits));
}

/// Every frequency of up to eleven digits goes out as `FA`, its eleven
/// digits and `;`, fourteen characters in all, and that string, read as the
/// reply to a frequency query, gives the frequency back.
pub proof fn lemma_frequency_round_trip(hz: u64)
    requires
        hz < 100_000_000_000,
    ensures
        wire(Command::SetFrequencyA(hz)) == "FA"@ + decimal(hz as nat, 11) + ";"@,
        wire(Command::SetFrequencyA(hz)).len() == 14,
        all_digits(decimal(hz as nat, 11)),
        decoded(wire(Command::SetFrequencyA(hz)), Command::GetFrequencyA) == Ok::<Response, Fault>(Response::FrequencyHz(hz)),
{
    reveal_strlit("FA");
    reveal_with_fuel(pow10, 12);
    lemma_decimal_digits(hz as nat, 11);
    lemma_number_round_trip("FA"@, hz as nat, 11);
}

/// Every transmit power of up to three digits goes out as `PC`, its three
/// digits and `;`, six characters in all, and that string, read as the reply
/// to a power query, gives the power back.
pub proof fn lemma_power_round_trip(watts: u32)
    requires
        watts <= 999,
    ensures
        wire(Command::SetTxPower(watts)) == "PC"@ + decimal(watts as nat, 3) + ";"@,
        wire(Command::SetTxPower(watts)).len() == 6,
        all_digits(decimal(watts as nat, 3)),
        decoded(wire(Command::SetTxPower(watts)), Command::GetTxPower) == Ok::<Response, Fault>(Response::TxPower(watts)),
{
    reveal_strlit("PC");
    reveal_with_fuel(pow10, 4);
    lemma_decimal_digits(watts as nat, 3);
    lemma_number_round_trip("PC"@, watts as nat, 3);
}

/// The codes of the mode table are single ASCII characters other than `?`.
proof fn lemma_mode_code_shape(i: int)
    requires
        0 <= i < MODE_COUNT,
    ensures
        mode_entry(i).0.len() == 1,
        is_ascii_chars(mode_entry(i).0),
        mode_entry(i).0[0] != '?',
{
    reveal_strlit("1");
    reveal_strlit("2");
    reveal_strlit("3");
    reveal_strlit("4");
    reveal_strlit("5");
    reveal_strlit("6");
    reveal_strlit("7");
    reveal_strlit("8");
    reveal_strlit("9");
    reveal_strlit("A");
    reveal_strlit("B");
    reveal_strlit("C");
    reveal_strlit("D");
    reveal_strlit("E");
}

/// For every entry of the mode table, selecting the mode by its name sends
/// `MD0`, the entry's code and `;`, and that string, read as the reply to a
/// mode query, gives the entry's name.
pub proof fn lemma_mode_round_trip(i: int)
    requires
        0 <= i < MODE_COUNT,
    ensures
        wire(Command::SetMode(mode_entry(i).1)) == "MD0"@ + mode_entry(i).0 + ";"@,
        decoded("MD0"@ + mode_entry(i).0 + ";"@, Command::GetMode) == Ok::<Response, Fault>(Response::Mode(mode_entry(i).1)),
{
    reveal_strlit("MD0");
    reveal_strlit(";");
    reveal_strlit("?");
    reveal_strlit("?;");
    let code = mode_entry(i).0;
    let name = mode_entry(i).1;
    lemma_mode_table_lookup(i);
    lemma_mode_code_shape(i);
    let reply = "MD0"@ + code + ";"@;
    assert(reply[0] == 'M');
    assert forall|k: int| 0 <= k < reply.len() implies '\0' <= #[trigger] reply[k]
        <= '\u{7f}' by {
        if k == 3 {
            assert(reply[k] == code[0]);
        }
    }
    assert(reply.subrange(0, 3) =~= "MD0"@);
    assert(reply.subrange(reply.len() - 1, reply.len() as int) =~= ";"@);
    assert(reply.subrange(3, reply.len() - 1) =~= code);
    assert(body_of(reply, "MD0"@, 1) == Some(code));
}

/// A mode name that the mode table does not hold is sent as DATA-USB.
pub proof fn lemma_unknown_mode_falls_back(name: Seq<char>)
    requires
        forall|i: int| 0 <= i < MODE_COUNT ==> mode_entry(i).1 != name,
    ensures
        wire(Command::SetMode(name)) == "MD0C;"@,
{
    reveal_strlit("MD0");
    reveal_strlit("C");
    reveal_strlit(";");
    reveal_strlit("MD0C;");
    assert(wire_mode_code(name) == "C"@);
    assert("MD0"@ + "C"@ + ";"@ =~= "MD0C;"@);
}

/// Every wire string is made of ASCII characters, so that on the serial line
/// each of its characters is one byte.
pub proof fn lemma_wire_is_ascii(cmd: Command)
    ensures
        is_ascii_chars(wire(cmd)),
        encode_utf8(wire(cmd)).len() == wire(cmd).len(),
        forall|i: int| 0 <= i < wire(cmd).len() ==> encode_utf8(wire(cmd))[i] == wire(cmd)[i] as u8,
{
    reveal_strlit("FA;");
    reveal_strlit("FA");
    reveal_strlit(";");
    reveal_strlit("MD0;");
    reveal_strlit("MD0");
    reveal_strlit("TX0;");
    reveal_strlit("TX1;");
    reveal_strlit("PC;");
    reveal_strlit("PC");
    reveal_strlit("C");
    let text = wire(cmd);
    match cmd {
        Command::SetFrequencyA(hz) => {
            let digits = decimal(hz as nat, 11);
            lemma_decimal_digits(hz as nat, 11);
            assert forall|i: int| 0 <= i < text.len() implies '\0' <= #[trigger] text[i]
                <= '\u{7f}' by {
                if 2 <= i < 2 + digits.len() {
                    assert(text[i] == digits[i - 2]);
                    assert(is_digit(digits[i - 2]));
                }
            }
        },
        Command::SetTxPower(watts) => {
            let digits = decimal(watts as nat, 3);
            lemma_decimal_digits(watts as nat, 3);
            assert forall|i: int| 0 <= i < text.len() implies '\0' <= #[trigger] text[i]
                <= '\u{7f}' by {
                if 2 <= i < 2 + digits.len() {
                    assert(text[i] == digits[i - 2]);
                    assert(is_digit(digits[i - 2]));
                }
            }
        },
        Command::SetMode(name) => {
            let code = wire_mode_code(name);
            if mode_code_of(name) is Some {
                let i = choose|i: int| 0 <= i < MODE_COUNT && mode_entry(i).1 == name;
                lemma_mode_code_shape(i);
                lemma_mode_table_lookup(i);
            }
            assert(code.len() == 1 && is_ascii_chars(code));
            assert forall|i: int| 0 <= i < text.len() implies '\0' <= #[trigger] text[i]
                <= '\u{7f}' by {
                if i == 3 {
                    assert(text[i] == code[0]);
                }
            }
        },
        _ => {},
    }
    is_ascii_chars_encode_utf8(text);
}

/// A reply with the echo of the command in front of it means what the reply
/// alone means.
pub proof fn lemma_echo_is_dropped(cmd: Command, reply: Seq<char>)
    ensures
        interpreted(encode_utf8(wire(cmd) + reply), cmd) == decoded(reply, cmd),
{
    let raw = wire(cmd) + reply;
    encode_utf8_valid_utf8(raw);
    encode_utf8_decode_utf8(raw);
    assert(raw.subrange(0, wire(cmd).len() as int) =~= wire(cmd));
    assert(raw.skip(wire(cmd).len() as int) =~= reply);
}

/// A reply that does not begin with the command is decoded as it stands.
pub proof fn lemma_plain_reply_is_kept(cmd: Command, reply: Seq<char>)
    requires
        !wire(cmd).is_prefix_of(reply),
    ensures
        interpreted(encode_utf8(reply), cmd) == decoded(reply, cmd),
{
    encode_utf8_valid_utf8(reply);
    encode_utf8_decode_utf8(reply);
}

/// All the bytes that a run of reads delivered, in order.
pub open spec fn joined(events: Seq<ReadEvent>) -> Seq<u8>
    decreases events.len(),
{
    if events.len() == 0 {
        Seq::empty()
    } else {
        joined(events.drop_last()) + delivered(events.last())
    }
}

/// Reads that all succeed and bring no terminator leave the gathering open,
/// with all their bytes gathered.
proof fn lemma_buffered_joined(events: Seq<ReadEvent>)
    requires
        forall|i: int| 0 <= i < events.len() ==> (#[trigger] events[i]).result is Ok,
        !joined(events).contains(TERMINATOR),
    ensures
        buffered(events) == Some(joined(events)),
    decreases events.len(),
{
    if events.len() > 0 {
        let front = events.drop_last();
        let last = events.last();
        let whole = joined(events);
        assert forall|i: int| 0 <= i < front.len() implies (#[trigger] front[i]).result is Ok by {
            assert(front[i] == events[i]);
        }
        if joined(front).contains(TERMINATOR) {
            let k = choose|k: int| 0 <= k < joined(front).len() && joined(front)[k] == TERMINATOR;
            assert(whole[k] == TERMINATOR);
        }
        lemma_buffered_joined(front);
        if last.result->Ok_0 == 0 {
            assert(delivered(last) =~= Seq::<u8>::empty());
            assert(whole =~= joined(front));
        }
    }
}

/// A reply that comes in pieces is put together: where none of up to five
/// reads fails and the terminator comes with the last of them, the reply is
/// every byte that came, in order.
pub proof fn lemma_reply_in_pieces(events: Seq<ReadEvent>)
    requires
        1 <= events.len() <= RESPONSE_TIMEOUT_READS,
        forall|i: int| 0 <= i < events.len() ==> (#[trigger] events[i]).result is Ok,
        !joined(events.drop_last()).contains(TERMINATOR),
        joined(events).contains(TERMINATOR),
    ensures
        gathered(events) == Some(ExchangeView::Reply(joined(events))),
{
    let front = events.drop_last();
    let last = events.last();
    assert forall|i: int| 0 <= i < front.len() implies (#[trigger] front[i]).result is Ok by {
        assert(front[i] == events[i]);
    }
    lemma_buffered_joined(front);
    if last.result->Ok_0 == 0 {
        assert(delivered(last) =~= Seq::<u8>::empty());
        assert(joined(events) =~= joined(front));
    }
}

/// Five reads that bring nothing are no response.
pub proof fn lemma_silence(events: Seq<ReadEvent>)
    requires
        events.len() == RESPONSE_TIMEOUT_READS,
        forall|i: int| 0 <= i < events.len() ==> (#[trigger] events[i]).result == Ok::<
            usize,
            Fault,
        >(0),
    ensures
        gathered(events) == Some(ExchangeView::Silent),
{
    assert forall|i: int| 0 <= i < events.len() implies (#[trigger] events[i]).result is Ok by {}
    lemma_nothing_joined(events);
    lemma_buffered_joined(events);
    let front = events.drop_last();
    assert forall|i: int| 0 <= i < front.len() implies (#[trigger] front[i]).result == Ok::<
        usize,
        Fault,
    >(0) by {
        assert(front[i] == events[i]);
    }
    lemma_nothing_joined(front);
    assert forall|i: int| 0 <= i < front.len() implies (#[trigger] front[i]).result is Ok by {}
    lemma_buffered_joined(front);
}

/// Reads that bring nothing deliver nothing.
proof fn lemma_nothing_joined(events: Seq<ReadEvent>)
    requires
        forall|i: int| 0 <= i < events.len() ==> (#[trigger] events[i]).result == Ok::<
            usize,
            Fault,
        >(0),
    ensures
        joined(events) == Seq::<u8>::empty(),
    decreases events.len(),
{
    if events.len() > 0 {
        let front = events.drop_last();
        assert forall|i: int| 0 <= i < front.len() implies (#[trigger] front[i]).result == Ok::<
            usize,
            Fault,
        >(0) by {
            assert(front[i] == events[i]);
        }
        lemma_nothing_joined(front);
        assert(delivered(events.last()) =~= Seq::<u8>::empty());
        assert(joined(events) =~= Seq::<u8>::empty());
    }
}

/// Whether `cmd` asks the radio to do something and expects no data back.
pub open spec fn is_order(cmd: Command) -> bool {
    cmd is SetFrequencyA || cmd is SetMode || cmd is SetTxPower || cmd is PttOn || cmd is PttOff
}

/// Every wire string has at least three characters.
pub proof fn lemma_wire_len(cmd: Command)
    ensures
        wire(cmd).len() >= 3,
{
    reveal_strlit("FA;");
    reveal_strlit("FA");
    reveal_strlit(";");
    reveal_strlit("MD0;");
    reveal_strlit("MD0");
    reveal_strlit("TX0;");
    reveal_strlit("TX1;");
    reveal_strlit("PC;");
    reveal_strlit("PC");
}

/// An order succeeds where the radio answers with `;`, with or without the
/// echo of the order before it.
pub proof fn lemma_order_acknowledged(cmd: Command, echoed: bool)
    requires
        is_order(cmd),
    ensures
        concluded(
            ExchangeView::Reply(
                encode_utf8(
                    if echoed {
                        wire(cmd) + ";"@
                    } else {
                        ";"@
                    },
                ),
            ),
            cmd,
        ) == Ok::<Response, Fault>(Response::Ack),
{
    reveal_strlit(";");
    reveal_strlit("?");
    reveal_strlit("?;");
    assert(is_ack(";"@));
    assert(!is_nak(";"@));
    if echoed {
        lemma_echo_is_dropped(cmd, ";"@);
    } else {
        lemma_wire_len(cmd);
        lemma_plain_reply_is_kept(cmd, ";"@);
    }
}

/// An order fails where the radio answers with `?;`.
pub proof fn lemma_order_refused(cmd: Command)
    requires
        is_order(cmd),
    ensures
        concluded(ExchangeView::Reply(encode_utf8("?;"@)), cmd) is Err,
{
    reveal_strlit("?;");
    lemma_wire_len(cmd);
    lemma_plain_reply_is_kept(cmd, "?;"@);
}

} // verus!
