//! A serial connection driven with CAT commands.
//!
//! The session writes a command, gathers the reply across as many reads as it
//! takes, and hands the bytes to the decoder. What it did on the connection is
//! kept as a log of exchanges, so that its contracts can say what went out and
//! how the result follows from what came back.

use super::decode::{decode, decoded};
use super::encode::{encode, wire};
use super::{CatCommand, CatResponse, Command, Response};
use crate::domain::error::{outcome, Fault, Psk31Error, Psk31Result};
use crate::ports::serial::SerialConnection;
use crate::text::{join3, same_text};
use vstd::prelude::*;
use vstd::string::*;
use vstd::utf8::{decode_utf8, encode_utf8, valid_utf8};

verus! {

/// Least time between the starts of two commands, in milliseconds.
pub const COMMAND_DELAY_MS: u64 = 50;

/// Bytes asked for with each read.
pub const READ_CHUNK_SIZE: usize = 64;

/// Reads tried for one reply before giving up.
pub const RESPONSE_TIMEOUT_READS: usize = 5;

/// The byte that ends every reply: `;`.
pub const TERMINATOR: u8 = 59;

/// The result of a read or write as a plain value.
pub open spec fn count_view(result: Psk31Result<usize>) -> Result<usize, Fault> {
    match result {
        Ok(count) => Ok(count),
        Err(error) => Err(error@),
    }
}

/// One read on the connection: the buffer as the read left it, and what the
/// read returned.
pub struct ReadEvent {
    pub chunk: Seq<u8>,
    pub result: Result<usize, Fault>,
}

/// The bytes that a read delivered: as many from the front of the buffer as
/// the read counted, and the whole buffer where it counted more.
pub open spec fn delivered(event: ReadEvent) -> Seq<u8> {
    match event.result {
        Ok(count) => if count <= event.chunk.len() {
            event.chunk.take(count as int)
        } else {
            event.chunk
        },
        Err(_) => Seq::empty(),
    }
}

/// Where gathering a reply stands after a read.
pub enum Progress {
    /// The reply so far; the terminator has not come.
    More(Seq<u8>),
    /// The reply, terminator included.
    Done(Seq<u8>),
    /// The read failed before any byte of the reply had come.
    Failed(Fault),
}

/// Gathering, one read on. Bytes that came join the reply, and the reply is
/// done once it holds a terminator. A read that timed out changes nothing. A
/// failed read is fatal only while the reply is still empty.
pub open spec fn after_read(reply: Seq<u8>, event: ReadEvent) -> Progress {
    match event.result {
        Ok(count) => if count > 0 {
            let grown = reply + delivered(event);
            if grown.contains(TERMINATOR) {
                Progress::Done(grown)
            } else {
                Progress::More(grown)
            }
        } else {
            Progress::More(reply)
        },
        Err(fault) => if reply.len() == 0 {
            Progress::Failed(fault)
        } else {
            Progress::More(reply)
        },
    }
}

/// The reply gathered by a run of reads none of which ended the gathering, or
/// `None` where one of them did.
pub open spec fn buffered(events: Seq<ReadEvent>) -> Option<Seq<u8>>
    decreases events.len(),
{
    if events.len() == 0 {
        Some(Seq::empty())
    } else {
        match buffered(events.drop_last()) {
            Some(reply) => match after_read(reply, events.last()) {
                Progress::More(grown) => Some(grown),
                _ => None,
            },
            None => None,
        }
    }
}

/// How the I/O of one command ended.
pub enum ExchangeView {
    /// The write failed.
    WriteFailed(Fault),
    /// A read failed before any byte had come.
    ReadFailed(Fault),
    /// All reads were made and no byte came.
    Silent,
    /// The bytes that came.
    Reply(Seq<u8>),
}

/// What a run of reads amounts to, where it is a run that the session makes:
/// it stops at the first read that ends the gathering, and otherwise has all
/// the reads that a reply is given.
pub open spec fn gathered(events: Seq<ReadEvent>) -> Option<ExchangeView> {
    if events.len() == 0 || events.len() > RESPONSE_TIMEOUT_READS {
        None
    } else {
        match buffered(events.drop_last()) {
            Some(reply) => match after_read(reply, events.last()) {
                Progress::Failed(fault) => Some(ExchangeView::ReadFailed(fault)),
                Progress::Done(grown) => Some(ExchangeView::Reply(grown)),
                Progress::More(grown) => if events.len() == RESPONSE_TIMEOUT_READS {
                    if grown.len() == 0 {
                        Some(ExchangeView::Silent)
                    } else {
                        Some(ExchangeView::Reply(grown))
                    }
                } else {
                    None
                },
            },
            None => None,
        }
    }
}

/// The I/O of one command: the bytes handed to the connection's `write`, what
/// the write returned, and the reads that followed.
pub struct Transaction {
    pub sent: Seq<u8>,
    pub write: Result<usize, Fault>,
    pub reads: Seq<ReadEvent>,
}

/// How a transaction ended, where it is one that the session makes: no read
/// follows a failed write.
pub open spec fn exchange_of(t: Transaction) -> Option<ExchangeView> {
    match t.write {
        Err(fault) => if t.reads.len() == 0 {
            Some(ExchangeView::WriteFailed(fault))
        } else {
            None
        },
        Ok(_) => gathered(t.reads),
    }
}

/// A reply without the echo of the command in front of it, where it has one.
pub open spec fn without_echo(reply: Seq<char>, sent: Seq<char>) -> Seq<char> {
    if sent.is_prefix_of(reply) {
        reply.skip(sent.len() as int)
    } else {
        reply
    }
}

/// What the bytes of a reply to `cmd` mean: they are read as UTF-8, lose the
/// echo of the command and are decoded.
pub open spec fn interpreted(raw: Seq<u8>, cmd: Command) -> Result<Response, Fault> {
    if valid_utf8(raw) {
        decoded(without_echo(decode_utf8(raw), wire(cmd)), cmd)
    } else {
        Err(Fault::Cat("Invalid UTF-8 response"@))
    }
}

/// The result of a command, by how its I/O ended.
pub open spec fn concluded(exchange: ExchangeView, cmd: Command) -> Result<Response, Fault> {
    match exchange {
        ExchangeView::WriteFailed(fault) => Err(
            Fault::Cat("Command '"@ + wire(cmd) + "' write failed: "@ + fault.text()),
        ),
        ExchangeView::ReadFailed(fault) => Err(
            Fault::Cat("Command '"@ + wire(cmd) + "' read failed: "@ + fault.text()),
        ),
        ExchangeView::Silent => Err(
            Fault::Cat("Command '"@ + wire(cmd) + "': no response from radio"@),
        ),
        ExchangeView::Reply(raw) => interpreted(raw, cmd),
    }
}

/// How long to wait before the next command may start: what is left of the
/// command delay since the last command started. A clock that has gone
/// backwards counts as no time passed.
pub open spec fn delay_needed(last: Option<u64>, now_ms: u64) -> u64 {
    match last {
        None => 0,
        Some(then) => if now_ms <= then {
            COMMAND_DELAY_MS
        } else if now_ms - then < COMMAND_DELAY_MS {
            (COMMAND_DELAY_MS - (now_ms - then)) as u64
        } else {
            0
        },
    }
}

/// `after` is `before` with one more command, `cmd`, sent at time `now_ms`:
/// the log has grown by one transaction, in which the wire string of `cmd`
/// went out and the reads were a run that the session makes, and the time of
/// the last command is `now_ms` unless the write failed.
pub open spec fn ran(before: CatSession, after: CatSession, cmd: Command, now_ms: u64) -> bool {
    &&& after.log().len() == before.log().len() + 1
    &&& after.log().drop_last() == before.log()
    &&& after.log().last().sent == encode_utf8(wire(cmd))
    &&& exchange_of(after.log().last()) is Some
    &&& after.last_command() == if after.log().last().write is Err {
        before.last_command()
    } else {
        Some(now_ms)
    }
}

/// The result of the session's last command, which was `cmd`.
pub open spec fn answer(session: CatSession, cmd: Command) -> Result<Response, Fault> {
    concluded(exchange_of(session.log().last()).unwrap(), cmd)
}

/// How the I/O of one command ended.
#[derive(Debug)]
pub enum Exchange {
    /// The write failed.
    WriteFailed(Psk31Error),
    /// A read failed before any byte had come.
    ReadFailed(Psk31Error),
    /// All reads were made and no byte came.
    Silent,
    /// The bytes that came.
    Reply(Vec<u8>),
}

impl View for Exchange {
    type V = ExchangeView;

    open spec fn view(&self) -> ExchangeView {
        match self {
            Exchange::WriteFailed(error) => ExchangeView::WriteFailed(error@),
            Exchange::ReadFailed(error) => ExchangeView::ReadFailed(error@),
            Exchange::Silent => ExchangeView::Silent,
            Exchange::Reply(raw) => ExchangeView::Reply(raw@),
        }
    }
}

/// What a read did to the gathering.
#[derive(Debug)]
pub enum ReadStep {
    /// Go on reading.
    More,
    /// The reply is complete.
    Done,
    /// Give up with this error.
    Failed(Psk31Error),
}

/// The progress that a step stands for, with the reply as it is after the
/// step.
pub open spec fn progress_of(reply: Seq<u8>, step: ReadStep) -> Progress {
    match step {
        ReadStep::More => Progress::More(reply),
        ReadStep::Done => Progress::Done(reply),
        ReadStep::Failed(error) => Progress::Failed(error@),
    }
}

/// Whether the reply holds a terminator.
fn has_terminator(reply: &Vec<u8>) -> (found: bool)
    ensures
        found == reply@.contains(TERMINATOR),
{
    let mut i: usize = 0;
    while i < reply.len()
        invariant
            i <= reply.len(),
            forall|k: int| 0 <= k < i ==> reply@[k] != TERMINATOR,
        decreases reply.len() - i,
    {
        if reply[i] == TERMINATOR {
            return true;
        }
        i += 1;
    }
    false
}

/// Takes the result of one read into the reply gathered so far.
pub fn absorb(reply: &mut Vec<u8>, chunk: &[u8], result: Psk31Result<usize>) -> (step: ReadStep)
    ensures
        progress_of(final(reply)@, step) == after_read(
            old(reply)@,
            ReadEvent { chunk: chunk@, result: count_view(result) },
        ),
        step is Failed ==> final(reply)@ == old(reply)@,
{
    let ghost event = ReadEvent { chunk: chunk@, result: count_view(result) };
    let ghost before = reply@;
    match result {
        Ok(count) => {
            if count > 0 {
                let take: usize = if count <= chunk.len() {
                    count
                } else {
                    chunk.len()
                };
                let mut i: usize = 0;
                while i < take
                    invariant
                        i <= take <= chunk.len(),
                        reply@ == before + chunk@.take(i as int),
                    decreases take - i,
                {
                    reply.push(chunk[i]);
                    i += 1;
                    assert(reply@ =~= before + chunk@.take(i as int));
                }
                assert(chunk@.take(chunk@.len() as int) =~= chunk@);
                assert(reply@ == before + delivered(event));
                if has_terminator(reply) {
                    ReadStep::Done
                } else {
                    ReadStep::More
                }
            } else {
                ReadStep::More
            }
        },
        Err(error) => {
            if reply.len() == 0 {
                ReadStep::Failed(error)
            } else {
                ReadStep::More
            }
        },
    }
}

/// An error of `core::str::from_utf8`.
#[verifier::external_type_specification]
#[verifier::external_body]
pub struct ExUtf8Error(core::str::Utf8Error);

/// `core::str::from_utf8`: the bytes as a string, which succeeds exactly where
/// they are valid UTF-8 and then gives a string with those very bytes.
#[verifier::external_body]
fn text_of_bytes(raw: &[u8]) -> (text: Result<&str, core::str::Utf8Error>)
    ensures
        text is Ok <==> valid_utf8(raw@),
        text matches Ok(s) ==> s.spec_bytes() == raw@,
{
    core::str::from_utf8(raw)
}

/// Drops the echo of the command from the front of a reply that has one.
pub fn strip_echo<'a>(reply: &'a str, sent: &str) -> (rest: &'a str)
    ensures
        rest@ == without_echo(reply@, sent@),
{
    let n: usize = sent.unicode_len();
    let m: usize = reply.unicode_len();
    if n <= m && same_text(reply.substring_char(0, n), sent) {
        reply.substring_char(n, m)
    } else {
        reply
    }
}

/// Reads the bytes of a reply to `cmd`.
pub fn interpret(raw: &[u8], cmd: &CatCommand) -> (result: Psk31Result<CatResponse>)
    ensures
        outcome(result) == interpreted(raw@, cmd@),
{
    match text_of_bytes(raw) {
        Ok(text) => {
            proof {
                vstd::utf8::decode_utf8_encode_utf8(raw@);
                vstd::utf8::encode_utf8_decode_utf8(text@);
            }
            let sent = encode(cmd);
            decode(strip_echo(text, sent.as_str()), cmd)
        },
        Err(_) => Err(Psk31Error::Cat(String::from_str("Invalid UTF-8 response"))),
    }
}

/// Turns the end of a command's I/O into the command's result.
pub fn conclude(exchange: Exchange, cmd: &CatCommand) -> (result: Psk31Result<CatResponse>)
    ensures
        outcome(result) == concluded(exchange@, cmd@),
{
    match exchange {
        Exchange::WriteFailed(error) => {
            let sent = encode(cmd);
            let mut text = join3("Command '", sent.as_str(), "' write failed: ");
            text.append(error.message().as_str());
            Err(Psk31Error::Cat(text))
        },
        Exchange::ReadFailed(error) => {
            let sent = encode(cmd);
            let mut text = join3("Command '", sent.as_str(), "' read failed: ");
            text.append(error.message().as_str());
            Err(Psk31Error::Cat(text))
        },
        Exchange::Silent => {
            let sent = encode(cmd);
            Err(Psk31Error::Cat(join3("Command '", sent.as_str(), "': no response from radio")))
        },
        Exchange::Reply(raw) => interpret(raw.as_slice(), cmd),
    }
}

/// A serial connection to the radio, and when the last command went out.
pub struct CatSession {
    serial: Box<dyn SerialConnection>,
    last_command_ms: Option<u64>,
    log: Ghost<Seq<Transaction>>,
}

impl CatSession {
    /// The time at which the last command was written, in milliseconds on the
    /// caller's clock.
    pub closed spec fn last_command(&self) -> Option<u64> {
        self.last_command_ms
    }

    /// Every command's I/O since the session was made, oldest first.
    pub closed spec fn log(&self) -> Seq<Transaction> {
        self.log@
    }

    /// A session on an open connection, with no command sent yet.
    pub fn new(serial: Box<dyn SerialConnection>) -> (session: Self)
        ensures
            session.last_command() is None,
            session.log() == Seq::<Transaction>::empty(),
    {
        CatSession { serial, last_command_ms: None, log: Ghost(Seq::empty()) }
    }

    /// How many milliseconds the caller has to let pass, at time `now_ms`,
    /// before it starts the next command.
    pub fn pacing_delay_ms(&self, now_ms: u64) -> (delay: u64)
        ensures
            delay == delay_needed(self.last_command(), now_ms),
    {
        match self.last_command_ms {
            None => 0,
            Some(then) => {
                if now_ms <= then {
                    COMMAND_DELAY_MS
                } else if now_ms - then < COMMAND_DELAY_MS {
                    COMMAND_DELAY_MS - (now_ms - then)
                } else {
                    0
                }
            },
        }
    }

    /// Reads until the reply holds a terminator, a read fails on an empty
    /// reply, or all reads have been made.
    fn read_until_semicolon(&mut self) -> (end: (Exchange, Ghost<Seq<ReadEvent>>))
        ensures
            gathered(end.1@) == Some(end.0@),
            final(self).last_command_ms == old(self).last_command_ms,
            final(self).log == old(self).log,
    {
        let mut reply: Vec<u8> = Vec::new();
        let ghost mut events: Seq<ReadEvent> = Seq::empty();
        let mut attempt: usize = 0;
        while attempt < RESPONSE_TIMEOUT_READS
            invariant
                attempt <= RESPONSE_TIMEOUT_READS,
                events.len() == attempt,
                buffered(events) == Some(reply@),
                self.last_command_ms == old(self).last_command_ms,
                self.log == old(self).log,
            decreases RESPONSE_TIMEOUT_READS - attempt,
        {
            let mut chunk = [0u8; READ_CHUNK_SIZE];
            let result = self.serial.read(&mut chunk);
            let ghost event = ReadEvent { chunk: chunk@, result: count_view(result) };
            let ghost before = events;
            let step = absorb(&mut reply, &chunk, result);
            proof {
                events = events.push(event);
                assert(events.drop_last() =~= before);
            }
            attempt += 1;
            match step {
                ReadStep::More => {},
                ReadStep::Done => {
                    return (Exchange::Reply(reply), Ghost(events));
                },
                ReadStep::Failed(error) => {
                    return (Exchange::ReadFailed(error), Ghost(events));
                },
            }
        }
        proof {
            let front = events.drop_last();
            assert(buffered(events) == match buffered(front) {
                Some(sofar) => match after_read(sofar, events.last()) {
                    Progress::More(grown) => Some(grown),
                    _ => None,
                },
                None => None,
            });
        }
        if reply.len() == 0 {
            (Exchange::Silent, Ghost(events))
        } else {
            (Exchange::Reply(reply), Ghost(events))
        }
    }

    /// Sends a command that starts at time `now_ms` and returns the radio's
    /// answer.
    ///
    /// The command's wire string is written once. Where the write fails, that
    /// is the error and no read is made. Otherwise the session reads until the
    /// reply holds a terminator, notes `now_ms` as the time of the last
    /// command, whatever the reads gave, drops the echo of the command and
    /// decodes the rest. The caller lets `pacing_delay_ms` pass first.
    pub fn execute(&mut self, cmd: &CatCommand, now_ms: u64) -> (result: Psk31Result<
        CatResponse,
    >)
        ensures
            ran(*old(self), *final(self), cmd@, now_ms),
            outcome(result) == answer(*final(self), cmd@),
    {
        let sent = encode(cmd);
        let written = self.serial.write(sent.as_str().as_bytes());
        let ghost before = self.log@;
        let ghost write = count_view(written);
        match written {
            Err(error) => {
                let ghost t = Transaction {
                    sent: encode_utf8(wire(cmd@)),
                    write,
                    reads: Seq::empty(),
                };
                proof {
                    self.log@ = before.push(t);
                    assert(self.log@.drop_last() =~= before);
                }
                conclude(Exchange::WriteFailed(error), cmd)
            },
            Ok(_) => {
                let (exchange, Ghost(reads)) = self.read_until_semicolon();
                self.last_command_ms = Some(now_ms);
                let ghost t = Transaction { sent: encode_utf8(wire(cmd@)), write, reads };
                proof {
                    self.log@ = before.push(t);
                    assert(self.log@.drop_last() =~= before);
                }
                conclude(exchange, cmd)
            },
        }
    }
}

} // verus!
