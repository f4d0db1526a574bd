//! The Yaesu FT-991A behind a CAT session.
//!
//! The adapter keeps the radio inside the US amateur bands and the transmit
//! power inside the wire format, and remembers whether it has keyed the
//! transmitter.

use crate::cat::decode::{decode, decoded};
use crate::cat::encode::wire;
use crate::cat::laws::{
    is_order, lemma_frequency_round_trip, lemma_order_acknowledged, lemma_power_round_trip,
};
use crate::cat::session::{answer, delay_needed, exchange_of, ran, CatSession, ExchangeView};
use crate::cat::{mode_code, mode_code_of, CatCommand, CatResponse, Command, Response};
use crate::domain::error::{outcome, Fault, Psk31Error, Psk31Result};
use crate::ports::radio::RadioControl;
use crate::ports::serial::SerialConnection;
use crate::text::{all_digits, decimal, join3, push_decimal};
use vstd::prelude::*;
use vstd::string::*;
use vstd::utf8::encode_utf8;

verus! {

/// Highest transmit power that the adapter sends, in watts.
pub const MAX_TX_POWER_WATTS: u32 = 100;

/// Attempts to release the transmitter when the adapter is given up.
pub const RELEASE_ATTEMPTS: usize = 3;

/// Whether `hz` lies in one of the US amateur bands, 160 m through 70 cm,
/// band edges included.
pub open spec fn in_amateur_band(hz: u64) -> bool {
    ||| 1_800_000 <= hz <= 2_000_000
    ||| 3_500_000 <= hz <= 4_000_000
    ||| 5_332_000 <= hz <= 5_405_000
    ||| 7_000_000 <= hz <= 7_300_000
    ||| 10_100_000 <= hz <= 10_150_000
    ||| 14_000_000 <= hz <= 14_350_000
    ||| 18_068_000 <= hz <= 18_168_000
    ||| 21_000_000 <= hz <= 21_450_000
    ||| 24_890_000 <= hz <= 24_990_000
    ||| 28_000_000 <= hz <= 29_700_000
    ||| 50_000_000 <= hz <= 54_000_000
    ||| 144_000_000 <= hz <= 148_000_000
    ||| 420_000_000 <= hz <= 450_000_000
}

/// Checks a frequency against the US amateur bands.
pub fn is_amateur_frequency(hz: u64) -> (inside: bool)
    ensures
        inside == in_amateur_band(hz),
{
    (1_800_000 <= hz && hz <= 2_000_000) || (3_500_000 <= hz && hz <= 4_000_000) || (5_332_000
        <= hz && hz <= 5_405_000) || (7_000_000 <= hz && hz <= 7_300_000) || (10_100_000 <= hz
        && hz <= 10_150_000) || (14_000_000 <= hz && hz <= 14_350_000) || (18_068_000 <= hz && hz
        <= 18_168_000) || (21_000_000 <= hz && hz <= 21_450_000) || (24_890_000 <= hz && hz
        <= 24_990_000) || (28_000_000 <= hz && hz <= 29_700_000) || (50_000_000 <= hz && hz
        <= 54_000_000) || (144_000_000 <= hz && hz <= 148_000_000) || (420_000_000 <= hz && hz
        <= 450_000_000)
}

/// Description of a frequency outside the bands.
pub open spec fn out_of_band_text(hz: u64) -> Seq<char> {
    "Frequency "@ + decimal(hz as nat, 1) + " Hz is outside US amateur bands"@
}

/// Description of a transmit power that the wire format cannot carry.
pub open spec fn over_power_text(watts: u32) -> Seq<char> {
    "TX power "@ + decimal(watts as nat, 1) + " W exceeds 100 W"@
}

/// Description of a mode name that the mode table does not hold.
pub open spec fn unknown_name_text(name: Seq<char>) -> Seq<char> {
    "Unknown mode name: '"@ + name + "'"@
}

/// The result of a command that asks for no data.
pub open spec fn accepted(answer: Result<Response, Fault>) -> Result<(), Fault> {
    match answer {
        Ok(_) => Ok(()),
        Err(fault) => Err(fault),
    }
}

/// The frequency in the answer to a frequency query, which has to lie in an
/// amateur band.
pub open spec fn frequency_in(answer: Result<Response, Fault>) -> Result<u64, Fault> {
    match answer {
        Ok(Response::FrequencyHz(hz)) => if in_amateur_band(hz) {
            Ok(hz)
        } else {
            Err(Fault::Cat(out_of_band_text(hz)))
        },
        Ok(_) => Err(Fault::Cat("Reply holds no frequency"@)),
        Err(fault) => Err(fault),
    }
}

/// The mode name in the answer to a mode query.
pub open spec fn mode_in(answer: Result<Response, Fault>) -> Result<Seq<char>, Fault> {
    match answer {
        Ok(Response::Mode(name)) => Ok(name),
        Ok(_) => Err(Fault::Cat("Reply holds no mode"@)),
        Err(fault) => Err(fault),
    }
}

/// The transmit power in the answer to a power query.
pub open spec fn power_in(answer: Result<Response, Fault>) -> Result<u32, Fault> {
    match answer {
        Ok(Response::TxPower(watts)) => Ok(watts),
        Ok(_) => Err(Fault::Cat("Reply holds no transmit power"@)),
        Err(fault) => Err(fault),
    }
}

/// The pause before release attempt number `attempt`, counted from 0, in
/// milliseconds.
pub open spec fn release_delay(attempt: nat) -> u64 {
    if attempt == 0 {
        0
    } else if attempt == 1 {
        10
    } else {
        50
    }
}

/// What is left to do for an adapter that is being given up.
#[derive(Debug, Clone, Copy, PartialEq, Eq)]
pub enum ReleaseStep {
    /// The transmitter is not keyed: nothing is left.
    Released,
    /// Wait this many milliseconds, then try `ptt_off`.
    Attempt { delay_ms: u64 },
    /// Every attempt has failed: the radio may still be transmitting.
    GiveUp,
}

/// What is left to do where the transmitter is or is not keyed and so many
/// release attempts have been made.
pub open spec fn release_plan(transmitting: bool, attempts_made: nat) -> ReleaseStep {
    if !transmitting {
        ReleaseStep::Released
    } else if attempts_made < RELEASE_ATTEMPTS {
        ReleaseStep::Attempt { delay_ms: release_delay(attempts_made) }
    } else {
        ReleaseStep::GiveUp
    }
}

/// The radio: a CAT session and whether the transmitter is keyed.
pub struct Ft991aRadio {
    session: CatSession,
    is_transmitting: bool,
}

/// Checks the answer to a command that asks for no data.
pub fn expect_accepted(reply: Psk31Result<CatResponse>) -> (result: Psk31Result<()>)
    ensures
        outcome(result) == accepted(outcome(reply)),
{
    match reply {
        Ok(_) => Ok(()),
        Err(error) => Err(error),
    }
}

/// Takes the frequency out of the answer to a frequency query and checks it
/// against the amateur bands.
pub fn expect_frequency(reply: Psk31Result<CatResponse>) -> (result: Psk31Result<u64>)
    ensures
        outcome(result) == frequency_in(outcome(reply)),
{
    match reply {
        Ok(CatResponse::FrequencyHz(hz)) => {
            if is_amateur_frequency(hz) {
                Ok(hz)
            } else {
                Err(out_of_band(hz))
            }
        },
        Ok(_) => Err(Psk31Error::Cat(String::from_str("Reply holds no frequency"))),
        Err(error) => Err(error),
    }
}

/// Takes the mode name out of the answer to a mode query.
pub fn expect_mode(reply: Psk31Result<CatResponse>) -> (result: Psk31Result<String>)
    ensures
        outcome(result) == mode_in(outcome(reply)),
{
    match reply {
        Ok(CatResponse::Mode(name)) => Ok(name),
        Ok(_) => Err(Psk31Error::Cat(String::from_str("Reply holds no mode"))),
        Err(error) => Err(error),
    }
}

/// Takes the transmit power out of the answer to a power query.
pub fn expect_power(reply: Psk31Result<CatResponse>) -> (result: Psk31Result<u32>)
    ensures
        outcome(result) == power_in(outcome(reply)),
{
    match reply {
        Ok(CatResponse::TxPower(watts)) => Ok(watts),
        Ok(_) => Err(Psk31Error::Cat(String::from_str("Reply holds no transmit power"))),
        Err(error) => Err(error),
    }
}

/// The error for a frequency outside the bands.
fn out_of_band(hz: u64) -> (error: Psk31Error)
    ensures
        error@ == Fault::Cat(out_of_band_text(hz)),
{
    let mut text = String::from_str("Frequency ");
    push_decimal(&mut text, hz, 1);
    text.append(" Hz is outside US amateur bands");
    Psk31Error::Cat(text)
}

impl Ft991aRadio {
    /// The CAT session that the adapter drives.
    pub closed spec fn session(&self) -> CatSession {
        self.session
    }

    /// Whether the adapter has keyed the transmitter and not released it.
    pub closed spec fn transmitting(&self) -> bool {
        self.is_transmitting
    }

    /// An adapter on an open connection: nothing sent yet, transmitter not
    /// keyed.
    pub fn new(serial: Box<dyn SerialConnection>) -> (radio: Self)
        ensures
            !radio.transmitting(),
            radio.session().last_command() is None,
            radio.session().log().len() == 0,
    {
        Ft991aRadio { session: CatSession::new(serial), is_transmitting: false }
    }

    /// What is left to do for an adapter that is being given up, after
    /// `attempts_made` tries to release the transmitter. An adapter that is
    /// still transmitting gets up to three tries, after pauses of 0, 10 and 50
    /// milliseconds.
    pub fn release_step(&self, attempts_made: usize) -> (step: ReleaseStep)
        ensures
            step == release_plan(self.transmitting(), attempts_made as nat),
    {
        if !self.is_transmitting {
            ReleaseStep::Released
        } else if attempts_made == 0 {
            ReleaseStep::Attempt { delay_ms: 0 }
        } else if attempts_made == 1 {
            ReleaseStep::Attempt { delay_ms: 10 }
        } else if attempts_made == 2 {
            ReleaseStep::Attempt { delay_ms: 50 }
        } else {
            ReleaseStep::GiveUp
        }
    }

    /// Reads the reply to a frequency query: `FA`, eleven digits, `;`, with a
    /// frequency inside the amateur bands.
    pub fn parse_frequency(response: &str) -> (result: Psk31Result<u64>)
        ensures
            outcome(result) == frequency_in(decoded(response@, Command::GetFrequencyA)),
    {
        expect_frequency(decode(response, &CatCommand::GetFrequencyA))
    }

    /// Reads the reply to a mode query: `MD0`, a code of the mode table, `;`.
    pub fn parse_mode(response: &str) -> (result: Psk31Result<String>)
        ensures
            outcome(result) == mode_in(decoded(response@, Command::GetMode)),
    {
        expect_mode(decode(response, &CatCommand::GetMode))
    }

    /// The code of a mode name, which the mode table has to hold.
    pub fn mode_to_code(mode: &str) -> (result: Psk31Result<&'static str>)
        ensures
            match mode_code_of(mode@) {
                Some(code) => result matches Ok(found) && found@ == code,
                None => result matches Err(error) && error@ == Fault::Cat(
                    unknown_name_text(mode@),
                ),
            },
    {
        match mode_code(mode) {
            Some(code) => Ok(code),
            None => Err(Psk31Error::Cat(join3("Unknown mode name: '", mode, "'"))),
        }
    }
}

impl RadioControl for Ft991aRadio {
    /// Whether the adapter has keyed the transmitter and not released it.
    fn is_transmitting(&self) -> (keyed: bool)
        ensures
            keyed == self.transmitting(),
    {
        self.is_transmitting
    }

    /// How many milliseconds the caller has to let pass, at time `now_ms`,
    /// before it calls a method that sends a command.
    fn pacing_delay_ms(&self, now_ms: u64) -> (delay: u64)
        ensures
            delay == delay_needed(self.session().last_command(), now_ms),
    {
        self.session.pacing_delay_ms(now_ms)
    }

    /// Keys the transmitter. The adapter counts as transmitting once the radio
    /// has accepted the command.
    fn ptt_on(&mut self, now_ms: u64) -> (result: Psk31Result<()>)
        ensures
            ran(old(self).session(), final(self).session(), Command::PttOn, now_ms),
            outcome(result) == accepted(answer(final(self).session(), Command::PttOn)),
            final(self).transmitting() == (result is Ok || old(self).transmitting()),
    {
        let result = expect_accepted(self.session.execute(&CatCommand::PttOn, now_ms));
        if result.is_ok() {
            self.is_transmitting = true;
        }
        result
    }

    /// Releases the transmitter. The adapter counts as idle once the radio has
    /// accepted the command.
    fn ptt_off(&mut self, now_ms: u64) -> (result: Psk31Result<()>)
        ensures
            ran(old(self).session(), final(self).session(), Command::PttOff, now_ms),
            outcome(result) == accepted(answer(final(self).session(), Command::PttOff)),
            final(self).transmitting() == (result is Err && old(self).transmitting()),
    {
        let result = expect_accepted(self.session.execute(&CatCommand::PttOff, now_ms));
        if result.is_ok() {
            self.is_transmitting = false;
        }
        result
    }

    /// Asks the radio for its frequency, in Hz. A frequency outside the amateur
    /// bands is an error.
    fn get_frequency(&mut self, now_ms: u64) -> (result: Psk31Result<u64>)
        ensures
            ran(old(self).session(), final(self).session(), Command::GetFrequencyA, now_ms),
            outcome(result) == frequency_in(answer(final(self).session(), Command::GetFrequencyA)),
            final(self).transmitting() == old(self).transmitting(),
    {
        expect_frequency(self.session.execute(&CatCommand::GetFrequencyA, now_ms))
    }

    /// Tunes the radio to `hz`. A frequency outside the amateur bands is
    /// refused before anything is sent.
    fn set_frequency(&mut self, hz: u64, now_ms: u64) -> (result: Psk31Result<()>)
        ensures
            !in_amateur_band(hz) ==> *final(self) == *old(self) && outcome(result) == Err::<
                (),
                Fault,
            >(Fault::Cat(out_of_band_text(hz))),
            in_amateur_band(hz) ==> ran(
                old(self).session(),
                final(self).session(),
                Command::SetFrequencyA(hz),
                now_ms,
            ) && outcome(result) == accepted(
                answer(final(self).session(), Command::SetFrequencyA(hz)),
            ) && final(self).transmitting() == old(self).transmitting(),
    {
        if !is_amateur_frequency(hz) {
            return Err(out_of_band(hz));
        }
        expect_accepted(self.session.execute(&CatCommand::SetFrequencyA(hz), now_ms))
    }

    /// Asks the radio for the name of its operating mode.
    fn get_mode(&mut self, now_ms: u64) -> (result: Psk31Result<String>)
        ensures
            ran(old(self).session(), final(self).session(), Command::GetMode, now_ms),
            outcome(result) == mode_in(answer(final(self).session(), Command::GetMode)),
            final(self).transmitting() == old(self).transmitting(),
    {
        expect_mode(self.session.execute(&CatCommand::GetMode, now_ms))
    }

    /// Selects an operating mode by its name. A name that the mode table does
    /// not hold is refused before anything is sent.
    fn set_mode(&mut self, mode: &str, now_ms: u64) -> (result: Psk31Result<()>)
        ensures
            mode_code_of(mode@) is None ==> *final(self) == *old(self) && outcome(result) == Err::<
                (),
                Fault,
            >(Fault::Cat(unknown_name_text(mode@))),
            mode_code_of(mode@) is Some ==> ran(
                old(self).session(),
                final(self).session(),
                Command::SetMode(mode@),
                now_ms,
            ) && outcome(result) == accepted(answer(final(self).session(), Command::SetMode(mode@)))
                && final(self).transmitting() == old(self).transmitting(),
    {
        match Self::mode_to_code(mode) {
            Ok(_) => {
                let cmd = CatCommand::SetMode(String::from_str(mode));
                expect_accepted(self.session.execute(&cmd, now_ms))
            },
            Err(error) => Err(error),
        }
    }

    /// Asks the radio for its transmit power, in watts.
    fn get_tx_power(&mut self, now_ms: u64) -> (result: Psk31Result<u32>)
        ensures
            ran(old(self).session(), final(self).session(), Command::GetTxPower, now_ms),
            outcome(result) == power_in(answer(final(self).session(), Command::GetTxPower)),
            final(self).transmitting() == old(self).transmitting(),
    {
        expect_power(self.session.execute(&CatCommand::GetTxPower, now_ms))
    }

    /// Sets the transmit power, in watts. More than 100 W is refused before
    /// anything is sent.
    fn set_tx_power(&mut self, watts: u32, now_ms: u64) -> (result: Psk31Result<()>)
        ensures
            watts > MAX_TX_POWER_WATTS ==> *final(self) == *old(self) && outcome(result) == Err::<
                (),
                Fault,
            >(Fault::Cat(over_power_text(watts))),
            watts <= MAX_TX_POWER_WATTS ==> ran(
                old(self).session(),
                final(self).session(),
                Command::SetTxPower(watts),
                now_ms,
            ) && outcome(result) == accepted(
                answer(final(self).session(), Command::SetTxPower(watts)),
            ) && final(self).transmitting() == old(self).transmitting(),
    {
        if watts > MAX_TX_POWER_WATTS {
            let mut text = String::from_str("TX power ");
            push_decimal(&mut text, watts as u64, 1);
            text.append(" W exceeds 100 W");
            return Err(Psk31Error::Cat(text));
        }
        expect_accepted(self.session.execute(&CatCommand::SetTxPower(watts), now_ms))
    }
}

/// Every frequency inside the amateur bands goes out as `FA`, its eleven
/// digits and `;`, and the same string as a reply gives the frequency back.
pub proof fn lemma_band_frequency_on_the_wire(hz: u64)
    requires
        in_amateur_band(hz),
    ensures
        wire(Command::SetFrequencyA(hz)) == "FA"@ + decimal(hz as nat, 11) + ";"@,
        decimal(hz as nat, 11).len() == 11,
        all_digits(decimal(hz as nat, 11)),
        frequency_in(decoded(wire(Command::SetFrequencyA(hz)), Command::GetFrequencyA)) == Ok::<
            u64,
            Fault,
        >(hz),
{
    lemma_frequency_round_trip(hz);
    reveal_strlit("FA");
    reveal_strlit(";");
}

/// Every transmit power that the adapter sends goes out as `PC`, its three
/// digits and `;`.
pub proof fn lemma_power_on_the_wire(watts: u32)
    requires
        watts <= MAX_TX_POWER_WATTS,
    ensures
        wire(Command::SetTxPower(watts)) == "PC"@ + decimal(watts as nat, 3) + ";"@,
        decimal(watts as nat, 3).len() == 3,
        all_digits(decimal(watts as nat, 3)),
{
    lemma_power_round_trip(watts);
    reveal_strlit("PC");
    reveal_strlit(";");
}

/// An adapter that is given up while it transmits gets a first release attempt
/// at once, a second after 10 ms and a third after 50 ms, and no more. One
/// that does not transmit gets none.
pub proof fn lemma_release_schedule(attempts_made: nat)
    ensures
        release_plan(true, 0) == (ReleaseStep::Attempt { delay_ms: 0 }),
        release_plan(true, 1) == (ReleaseStep::Attempt { delay_ms: 10 }),
        release_plan(true, 2) == (ReleaseStep::Attempt { delay_ms: 50 }),
        attempts_made >= RELEASE_ATTEMPTS ==> release_plan(true, attempts_made)
            == ReleaseStep::GiveUp,
        release_plan(false, attempts_made) == ReleaseStep::Released,
{
}

/// Whether the radio answered the session's last command with `;` alone.
pub open spec fn acknowledged(session: CatSession) -> bool {
    exchange_of(session.log().last()) == Some(ExchangeView::Reply(encode_utf8(";"@)))
}

/// An order that has gone out and that the radio has answered with `;` has
/// succeeded. So `set_frequency` succeeds for every frequency inside the bands,
/// `set_tx_power` for every power up to 100 W, `set_mode` for every mode of the
/// table, and `ptt_on` and `ptt_off` always, as long as the radio acknowledges.
pub proof fn lemma_acknowledged_order_succeeds(
    before: CatSession,
    after: CatSession,
    cmd: Command,
    now_ms: u64,
)
    requires
        is_order(cmd),
        ran(before, after, cmd, now_ms),
        acknowledged(after),
    ensures
        accepted(answer(after, cmd)) == Ok::<(), Fault>(()),
{
    lemma_order_acknowledged(cmd, false);
}

} // verus!
