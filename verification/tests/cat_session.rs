use baudacious::cat::session::{
    absorb, conclude, interpret, strip_echo, Exchange, ReadStep, COMMAND_DELAY_MS,
};
use baudacious::cat::{CatCommand, CatResponse, CatSession};
use baudacious::domain::error::{Psk31Error, Psk31Result};
use baudacious::ports::serial::{read_follows, SerialConnection};
use std::sync::{Arc, Mutex};

struct MockSerial {
    log: Arc<Mutex<Vec<String>>>,
    response: String,
}

impl SerialConnection for MockSerial {
    fn write(&mut self, data: &[u8]) -> Psk31Result<usize> {
        self.log
            .lock()
            .unwrap()
            .push(String::from_utf8_lossy(data).into());
        Ok(data.len())
    }
    fn read(&mut self, buf: &mut [u8]) -> Psk31Result<usize> {
        let bytes = self.response.as_bytes();
        let n = bytes.len().min(buf.len());
        buf[..n].copy_from_slice(&bytes[..n]);
        Ok(n)
    }
    fn close(&mut self) -> Psk31Result<()> {
        Ok(())
    }
    fn is_connected(&self) -> bool {
        true
    }
}

fn make_session(response: &str) -> (CatSession, Arc<Mutex<Vec<String>>>) {
    let log = Arc::new(Mutex::new(Vec::new()));
    let mock = MockSerial {
        log: Arc::clone(&log),
        response: response.to_string(),
    };
    (CatSession::new(Box::new(mock)), log)
}

/// What a scripted connection does on one read.
enum Script {
    Bytes(Vec<u8>),
    Timeout,
    Fail,
    /// Claims more bytes than the buffer holds.
    Overcount,
}

struct ScriptedSerial {
    fail_write: bool,
    reads: Vec<Script>,
    cursor: usize,
    writes: Arc<Mutex<Vec<Vec<u8>>>>,
    reads_made: Arc<Mutex<usize>>,
}

impl SerialConnection for ScriptedSerial {
    fn write(&mut self, data: &[u8]) -> Psk31Result<usize> {
        self.writes.lock().unwrap().push(data.to_vec());
        if self.fail_write {
            Err(Psk31Error::Serial("Write failed: port gone".to_string()))
        } else {
            Ok(data.len())
        }
    }
    fn read(&mut self, buf: &mut [u8]) -> Psk31Result<usize> {
        *self.reads_made.lock().unwrap() += 1;
        let step = self.reads.get(self.cursor);
        self.cursor += 1;
        match step {
            Some(Script::Bytes(bytes)) => {
                buf[..bytes.len()].copy_from_slice(bytes);
                Ok(bytes.len())
            }
            Some(Script::Fail) => Err(Psk31Error::Serial("Read failed: timed out".to_string())),
            Some(Script::Overcount) => {
                for b in buf.iter_mut() {
                    *b = b';';
                }
                Ok(buf.len() + 1000)
            }
            Some(Script::Timeout) | None => Ok(0),
        }
    }
    fn close(&mut self) -> Psk31Result<()> {
        Ok(())
    }
    fn is_connected(&self) -> bool {
        true
    }
}

struct Scripted {
    session: CatSession,
    writes: Arc<Mutex<Vec<Vec<u8>>>>,
    reads_made: Arc<Mutex<usize>>,
}

fn scripted(fail_write: bool, reads: Vec<Script>) -> Scripted {
    let writes = Arc::new(Mutex::new(Vec::new()));
    let reads_made = Arc::new(Mutex::new(0));
    let serial = ScriptedSerial {
        fail_write,
        reads,
        cursor: 0,
        writes: Arc::clone(&writes),
        reads_made: Arc::clone(&reads_made),
    };
    Scripted { session: CatSession::new(Box::new(serial)), writes, reads_made }
}

fn cat_error(text: &str) -> Psk31Error {
    Psk31Error::Cat(text.to_string())
}

#[test]
fn execute_get_frequency_sends_fa_query() {
    let (mut session, log) = make_session("FA00014070000;");
    session.execute(&CatCommand::GetFrequencyA, 0).unwrap();
    assert_eq!(log.lock().unwrap()[0], "FA;");
}

#[test]
fn execute_ptt_on_sends_tx1() {
    let (mut session, log) = make_session(";");
    session.execute(&CatCommand::PttOn, 0).unwrap();
    assert_eq!(log.lock().unwrap()[0], "TX1;");
}

#[test]
fn execute_ptt_off_sends_tx0() {
    let (mut session, log) = make_session(";");
    session.execute(&CatCommand::PttOff, 0).unwrap();
    assert_eq!(log.lock().unwrap()[0], "TX0;");
}

#[test]
fn nak_response_returns_err() {
    let (mut session, _) = make_session("?");
    let result = session.execute(&CatCommand::GetFrequencyA, 0);
    assert!(result.is_err(), "? response should be Err");
}

#[test]
fn semicolon_response_returns_ack() {
    let (mut session, _) = make_session(";");
    let resp = session.execute(&CatCommand::PttOn, 0).unwrap();
    assert_eq!(resp, CatResponse::Ack);
}

#[test]
fn echo_stripped_before_decode() {
    let (mut session, _) = make_session("FA;FA00014070000;");
    let resp = session.execute(&CatCommand::GetFrequencyA, 0).unwrap();
    assert_eq!(resp, CatResponse::FrequencyHz(14_070_000));
}

#[test]
fn get_tx_power_returns_watts() {
    let (mut session, log) = make_session("PC025;");
    let resp = session.execute(&CatCommand::GetTxPower, 0).unwrap();
    assert_eq!(resp, CatResponse::TxPower(25));
    assert_eq!(log.lock().unwrap()[0], "PC;");
}

#[test]
fn set_tx_power_sends_correct_wire() {
    let (mut session, log) = make_session(";");
    session.execute(&CatCommand::SetTxPower(50), 0).unwrap();
    assert_eq!(log.lock().unwrap()[0], "PC050;");
}

struct StreamingMockSerial {
    response: Vec<u8>,
    cursor: usize,
}

impl SerialConnection for StreamingMockSerial {
    fn write(&mut self, data: &[u8]) -> Psk31Result<usize> {
        Ok(data.len())
    }
    fn read(&mut self, buf: &mut [u8]) -> Psk31Result<usize> {
        if self.cursor >= self.response.len() {
            return Ok(0);
        }
        buf[0] = self.response[self.cursor];
        self.cursor += 1;
        Ok(1)
    }
    fn close(&mut self) -> Psk31Result<()> {
        Ok(())
    }
    fn is_connected(&self) -> bool {
        true
    }
}

#[test]
fn long_response_read_across_multiple_chunks() {
    let response = format!("{}{}", "MD0;".repeat(15), "MD0C;");
    assert!(response.len() > 64, "test setup: response must exceed 64 bytes");

    let serial = StreamingMockSerial {
        response: response.into_bytes(),
        cursor: 0,
    };
    let mut session = CatSession::new(Box::new(serial));
    let result = session.execute(&CatCommand::GetMode, 0);
    match result {
        Err(e) => {
            let msg = e.message();
            assert!(
                !msg.contains("no response"),
                "got 'no response' — bytes were truncated: {msg}"
            );
        }
        Ok(_) => {}
    }
}

#[test]
fn a_reply_in_pieces_is_put_together() {
    let mut s = scripted(
        false,
        vec![
            Script::Bytes(b"FA000".to_vec()),
            Script::Timeout,
            Script::Bytes(b"14070".to_vec()),
            Script::Bytes(b"000;".to_vec()),
            Script::Bytes(b"never read".to_vec()),
        ],
    );
    assert_eq!(
        s.session.execute(&CatCommand::GetFrequencyA, 0),
        Ok(CatResponse::FrequencyHz(14_070_000))
    );
    // Reading stops with the read that brought the terminator.
    assert_eq!(*s.reads_made.lock().unwrap(), 4);
    assert_eq!(*s.writes.lock().unwrap(), vec![b"FA;".to_vec()]);
}

#[test]
fn a_reply_longer_than_one_read_is_not_cut() {
    // 70 bytes before the terminator arrive in two reads of up to 64 bytes.
    let mut first = vec![b'X'; 64];
    first[0] = b'F';
    let mut s = scripted(
        false,
        vec![Script::Bytes(first), Script::Bytes(b"XXXXXX;".to_vec())],
    );
    let result = s.session.execute(&CatCommand::GetFrequencyA, 0);
    let expected = format!("Invalid frequency response: 'F{};'", "X".repeat(69));
    assert_eq!(result, Err(cat_error(&expected)));
    assert_eq!(*s.reads_made.lock().unwrap(), 2);
}

#[test]
fn silence_after_five_reads_is_no_response() {
    let mut s = scripted(false, vec![]);
    assert_eq!(
        s.session.execute(&CatCommand::GetFrequencyA, 0),
        Err(cat_error("Command 'FA;': no response from radio"))
    );
    assert_eq!(*s.reads_made.lock().unwrap(), 5);
}

#[test]
fn a_failed_write_is_reported_and_nothing_is_read() {
    let mut s = scripted(true, vec![Script::Bytes(b";".to_vec())]);
    assert_eq!(
        s.session.execute(&CatCommand::PttOn, 0),
        Err(cat_error(
            "Command 'TX1;' write failed: Serial port error: Write failed: port gone"
        ))
    );
    assert_eq!(*s.reads_made.lock().unwrap(), 0);
    assert_eq!(*s.writes.lock().unwrap(), vec![b"TX1;".to_vec()]);
    // No command went out, so the next one need not wait.
    assert_eq!(s.session.pacing_delay_ms(0), 0);
}

#[test]
fn a_failed_read_before_any_byte_is_fatal() {
    let mut s = scripted(false, vec![Script::Fail, Script::Bytes(b";".to_vec())]);
    assert_eq!(
        s.session.execute(&CatCommand::PttOn, 0),
        Err(cat_error(
            "Command 'TX1;' read failed: Serial port error: Read failed: timed out"
        ))
    );
    assert_eq!(*s.reads_made.lock().unwrap(), 1);
}

#[test]
fn a_failed_read_in_the_middle_of_a_reply_is_not_fatal() {
    let mut s = scripted(
        false,
        vec![Script::Bytes(b"PC0".to_vec()), Script::Fail, Script::Bytes(b"25;".to_vec())],
    );
    assert_eq!(s.session.execute(&CatCommand::GetTxPower, 0), Ok(CatResponse::TxPower(25)));
    assert_eq!(*s.reads_made.lock().unwrap(), 3);
}

#[test]
fn a_reply_without_terminator_is_decoded_after_five_reads() {
    let mut s = scripted(false, vec![Script::Bytes(b"PC025".to_vec())]);
    assert_eq!(
        s.session.execute(&CatCommand::GetTxPower, 0),
        Err(cat_error("Invalid TX power response: 'PC025'"))
    );
    assert_eq!(*s.reads_made.lock().unwrap(), 5);
}

#[test]
fn a_count_beyond_the_buffer_is_taken_as_the_buffer() {
    let mut s = scripted(false, vec![Script::Overcount]);
    let result = s.session.execute(&CatCommand::PttOn, 0);
    let expected = format!("Expected Ack (';') for 'TX1;', got: '{}'", ";".repeat(64));
    assert_eq!(result, Err(cat_error(&expected)));
}

#[test]
fn bytes_that_are_no_utf8_are_an_error() {
    let mut s = scripted(false, vec![Script::Bytes(vec![0xff, 0xfe, b';'])]);
    assert_eq!(
        s.session.execute(&CatCommand::GetMode, 0),
        Err(cat_error("Invalid UTF-8 response"))
    );
}

#[test]
fn interpret_reads_utf8_then_strips_and_decodes() {
    assert_eq!(
        interpret(b"MD0;MD0C;", &CatCommand::GetMode),
        Ok(CatResponse::Mode("DATA-USB".to_string()))
    );
    assert_eq!(interpret(b"TX1;", &CatCommand::PttOn), Ok(CatResponse::Ack));
    assert_eq!(interpret(b"TX1;;", &CatCommand::PttOn), Ok(CatResponse::Ack));
    assert_eq!(
        interpret(&[b'M', b'D', b'0', 0xc3, b';'], &CatCommand::GetMode),
        Err(cat_error("Invalid UTF-8 response"))
    );
    // Valid UTF-8 that is no ASCII is read as text and then refused by the decoder.
    assert_eq!(
        interpret("MD0\u{e9};".as_bytes(), &CatCommand::GetMode),
        Err(cat_error("Invalid mode response: 'MD0\u{e9};'"))
    );
}

#[test]
fn strip_echo_drops_one_exact_echo() {
    assert_eq!(strip_echo("FA;FA00014070000;", "FA;"), "FA00014070000;");
    assert_eq!(strip_echo("FA00014070000;", "FA;"), "FA00014070000;");
    assert_eq!(strip_echo("FA;FA;FA00014070000;", "FA;"), "FA;FA00014070000;");
    assert_eq!(strip_echo("FA;", "FA;"), "");
    assert_eq!(strip_echo("FA", "FA;"), "FA");
    assert_eq!(strip_echo("", "FA;"), "");
    assert_eq!(strip_echo("\u{e9}x", "\u{e9}"), "x");
}

#[test]
fn absorb_joins_reads_until_the_terminator() {
    let mut reply = Vec::new();
    assert!(matches!(absorb(&mut reply, b"FA0\0\0", Ok(3)), ReadStep::More));
    assert_eq!(reply, b"FA0");
    assert!(matches!(absorb(&mut reply, b"xxxx", Ok(0)), ReadStep::More));
    assert_eq!(reply, b"FA0");
    let failed: Psk31Result<usize> = Err(Psk31Error::Serial("late".to_string()));
    assert!(matches!(absorb(&mut reply, b"xxxx", failed), ReadStep::More));
    assert_eq!(reply, b"FA0");
    assert!(matches!(absorb(&mut reply, b"1;zz", Ok(2)), ReadStep::Done));
    assert_eq!(reply, b"FA01;");

    let mut empty = Vec::new();
    let failed: Psk31Result<usize> = Err(Psk31Error::Serial("early".to_string()));
    match absorb(&mut empty, b"xxxx", failed) {
        ReadStep::Failed(error) => assert_eq!(error, Psk31Error::Serial("early".to_string())),
        other => panic!("expected a failure, got {other:?}"),
    }
    assert!(empty.is_empty());
}

#[test]
fn conclude_names_each_way_to_fail() {
    let cmd = CatCommand::GetFrequencyA;
    assert_eq!(
        conclude(Exchange::Silent, &cmd),
        Err(cat_error("Command 'FA;': no response from radio"))
    );
    assert_eq!(
        conclude(Exchange::WriteFailed(Psk31Error::Serial("gone".to_string())), &cmd),
        Err(cat_error("Command 'FA;' write failed: Serial port error: gone"))
    );
    assert_eq!(
        conclude(Exchange::ReadFailed(Psk31Error::Audio("odd".to_string())), &cmd),
        Err(cat_error("Command 'FA;' read failed: Audio error: odd"))
    );
    assert_eq!(
        conclude(Exchange::Reply(b"FA;FA00007035000;".to_vec()), &cmd),
        Ok(CatResponse::FrequencyHz(7_035_000))
    );
}

#[test]
fn commands_are_paced_fifty_milliseconds_apart() {
    let (mut session, _) = make_session(";");
    assert_eq!(COMMAND_DELAY_MS, 50);
    // Nothing sent yet: no wait.
    assert_eq!(session.pacing_delay_ms(0), 0);
    assert_eq!(session.pacing_delay_ms(1_000_000), 0);
    session.execute(&CatCommand::PttOn, 1000).unwrap();
    assert_eq!(session.pacing_delay_ms(1000), 50);
    assert_eq!(session.pacing_delay_ms(1001), 49);
    assert_eq!(session.pacing_delay_ms(1049), 1);
    assert_eq!(session.pacing_delay_ms(1050), 0);
    assert_eq!(session.pacing_delay_ms(5000), 0);
    // A clock that went backwards counts as no time passed.
    assert_eq!(session.pacing_delay_ms(900), 50);
}

#[test]
fn the_time_of_a_command_is_kept_even_when_the_radio_refuses() {
    let (mut session, _) = make_session("?;");
    assert!(session.execute(&CatCommand::PttOn, 200).is_err());
    assert_eq!(session.pacing_delay_ms(210), 40);
    // The session is still usable.
    assert!(session.execute(&CatCommand::PttOn, 250).is_err());
    assert_eq!(session.pacing_delay_ms(260), 40);
}

#[test]
fn write_read_writes_the_command_and_reads_once() {
    let writes = Arc::new(Mutex::new(Vec::new()));
    let reads_made = Arc::new(Mutex::new(0));
    let mut serial = ScriptedSerial {
        fail_write: false,
        reads: vec![Script::Bytes(b"PC025;".to_vec()), Script::Bytes(b"more".to_vec())],
        cursor: 0,
        writes: Arc::clone(&writes),
        reads_made: Arc::clone(&reads_made),
    };
    let mut buffer = [0u8; 16];
    assert_eq!(serial.write_read("PC;", &mut buffer), Ok(6));
    assert_eq!(&buffer[..6], b"PC025;");
    assert_eq!(*writes.lock().unwrap(), vec![b"PC;".to_vec()]);
    assert_eq!(*reads_made.lock().unwrap(), 1);
}

#[test]
fn write_read_does_not_read_after_a_failed_write() {
    let writes = Arc::new(Mutex::new(Vec::new()));
    let reads_made = Arc::new(Mutex::new(0));
    let mut serial = ScriptedSerial {
        fail_write: true,
        reads: vec![Script::Bytes(b"PC025;".to_vec())],
        cursor: 0,
        writes: Arc::clone(&writes),
        reads_made: Arc::clone(&reads_made),
    };
    let mut buffer = [7u8; 16];
    assert_eq!(
        serial.write_read("PC;", &mut buffer),
        Err(Psk31Error::Serial("Write failed: port gone".to_string()))
    );
    assert_eq!(buffer, [7u8; 16]);
    assert_eq!(*reads_made.lock().unwrap(), 0);
}

#[test]
fn write_read_hands_on_what_the_read_gives() {
    let mut silent = scripted_serial(vec![Script::Timeout]);
    let mut buffer = [0u8; 4];
    assert_eq!(silent.write_read("FA;", &mut buffer), Ok(0));
    let mut failing = scripted_serial(vec![Script::Fail]);
    assert_eq!(
        failing.write_read("FA;", &mut buffer),
        Err(Psk31Error::Serial("Read failed: timed out".to_string()))
    );
}

fn scripted_serial(reads: Vec<Script>) -> ScriptedSerial {
    ScriptedSerial {
        fail_write: false,
        reads,
        cursor: 0,
        writes: Arc::new(Mutex::new(Vec::new())),
        reads_made: Arc::new(Mutex::new(0)),
    }
}

#[test]
fn a_read_follows_a_write_that_succeeded() {
    assert_eq!(read_follows(Ok(3)), Ok(()));
    // A write that took nothing has still succeeded.
    assert_eq!(read_follows(Ok(0)), Ok(()));
    assert_eq!(
        read_follows(Err(Psk31Error::Serial("gone".to_string()))),
        Err(Psk31Error::Serial("gone".to_string()))
    );
}
