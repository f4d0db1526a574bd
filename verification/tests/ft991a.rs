use baudacious::adapters::ft991a::{
    expect_accepted, expect_frequency, expect_mode, expect_power, is_amateur_frequency,
    Ft991aRadio, ReleaseStep, MAX_TX_POWER_WATTS, RELEASE_ATTEMPTS,
};
use baudacious::cat::CatResponse;
use baudacious::domain::error::{Psk31Error, Psk31Result};
use baudacious::ports::radio::RadioControl;
use baudacious::ports::serial::SerialConnection;
use std::sync::{Arc, Mutex};

struct MockSerial {
    log: Arc<Mutex<Vec<String>>>,
    response: String,
}

impl SerialConnection for MockSerial {
    fn write(&mut self, data: &[u8]) -> Psk31Result<usize> {
        self.log
            .lock()
            .unwrap()
            .push(String::from_utf8_lossy(data).into());
        Ok(data.len())
    }
    fn read(&mut self, buf: &mut [u8]) -> Psk31Result<usize> {
        let bytes = self.response.as_bytes();
        let n = bytes.len().min(buf.len());
        buf[..n].copy_from_slice(&bytes[..n]);
        Ok(n)
    }
    fn close(&mut self) -> Psk31Result<()> {
        Ok(())
    }
    fn is_connected(&self) -> bool {
        true
    }
}

fn make_ft991a(response: &str) -> (Ft991aRadio, Arc<Mutex<Vec<String>>>) {
    let log = Arc::new(Mutex::new(Vec::new()));
    let mock = MockSerial {
        log: Arc::clone(&log),
        response: response.to_string(),
    };
    (Ft991aRadio::new(Box::new(mock)), log)
}

/// A connection whose replies can be changed while the radio owns it.
struct SwitchedSerial {
    log: Arc<Mutex<Vec<String>>>,
    response: Arc<Mutex<String>>,
}

impl SerialConnection for SwitchedSerial {
    fn write(&mut self, data: &[u8]) -> Psk31Result<usize> {
        self.log
            .lock()
            .unwrap()
            .push(String::from_utf8_lossy(data).into());
        Ok(data.len())
    }
    fn read(&mut self, buf: &mut [u8]) -> Psk31Result<usize> {
        let response = self.response.lock().unwrap();
        let bytes = response.as_bytes();
        let n = bytes.len().min(buf.len());
        buf[..n].copy_from_slice(&bytes[..n]);
        Ok(n)
    }
    fn close(&mut self) -> Psk31Result<()> {
        Ok(())
    }
    fn is_connected(&self) -> bool {
        true
    }
}

fn cat_error(text: &str) -> Psk31Error {
    Psk31Error::Cat(text.to_string())
}

#[test]
fn parse_frequency_valid() {
    let hz = Ft991aRadio::parse_frequency("FA00014070000;").unwrap();
    assert_eq!(hz as f64, 14_070_000.0);
}

#[test]
fn parse_frequency_seven_mhz() {
    let hz = Ft991aRadio::parse_frequency("FA00007074000;").unwrap();
    assert_eq!(hz as f64, 7_074_000.0);
}

#[test]
fn parse_frequency_invalid_prefix() {
    assert!(Ft991aRadio::parse_frequency("FB00014070000;").is_err());
}

#[test]
fn parse_frequency_too_short() {
    assert!(Ft991aRadio::parse_frequency("FA123;").is_err());
}

#[test]
fn parse_frequency_rejects_non_amateur() {
    assert!(Ft991aRadio::parse_frequency("FA00001000000;").is_err());
    assert!(Ft991aRadio::parse_frequency("FA00000000000;").is_err());
    assert!(Ft991aRadio::parse_frequency("FA00005000000;").is_err());
}

#[test]
fn parse_frequency_accepts_amateur_bands() {
    assert!(Ft991aRadio::parse_frequency("FA00014070000;").is_ok());
    assert!(Ft991aRadio::parse_frequency("FA00146520000;").is_ok());
    assert!(Ft991aRadio::parse_frequency("FA00420000000;").is_ok());
    assert!(Ft991aRadio::parse_frequency("FA00001800000;").is_ok());
}

#[test]
fn parse_mode_data_usb() {
    let mode = Ft991aRadio::parse_mode("MD0C;").unwrap();
    assert_eq!(mode, "DATA-USB");
}

#[test]
fn parse_mode_usb() {
    let mode = Ft991aRadio::parse_mode("MD02;").unwrap();
    assert_eq!(mode, "USB");
}

#[test]
fn parse_mode_lsb() {
    let mode = Ft991aRadio::parse_mode("MD01;").unwrap();
    assert_eq!(mode, "LSB");
}

#[test]
fn parse_mode_invalid() {
    assert!(Ft991aRadio::parse_mode("MD0Z;").is_err());
}

#[test]
fn parse_mode_too_short() {
    assert!(Ft991aRadio::parse_mode("MD;").is_err());
}

#[test]
fn mode_roundtrip() {
    let modes = [
        "LSB", "USB", "CW", "FM", "AM", "RTTY-LSB", "CW-R", "DATA-LSB", "RTTY-USB",
        "DATA-FM", "FM-N", "DATA-USB", "AM-N", "C4FM",
    ];
    for mode in modes {
        let code = Ft991aRadio::mode_to_code(mode).unwrap();
        let response = format!("MD0{code};");
        let parsed = Ft991aRadio::parse_mode(&response).unwrap();
        assert_eq!(parsed, mode, "Roundtrip failed for mode '{mode}'");
    }
}

#[test]
fn set_frequency_rejects_non_amateur_before_sending() {
    let (mut radio, log) = make_ft991a(";");
    let result = radio.set_frequency(10_000_000.0 as u64, 0);
    assert!(result.is_err(), "expected Err for out-of-band frequency");
    assert!(
        log.lock().unwrap().is_empty(),
        "no bytes should hit the wire for an out-of-band frequency"
    );
}

#[test]
fn set_frequency_accepts_all_amateur_bands() {
    let freqs: &[(f64, &str)] = &[
        (1_838_000.0, "160m"),
        (3_580_000.0, "80m"),
        (7_035_000.0, "40m"),
        (10_142_000.0, "30m"),
        (14_070_000.0, "20m"),
        (18_100_000.0, "17m"),
        (21_080_000.0, "15m"),
        (24_920_000.0, "12m"),
        (28_120_000.0, "10m"),
    ];
    for &(hz, band) in freqs {
        let (mut radio, _) = make_ft991a(";");
        assert!(
            radio.set_frequency(hz as u64, 0).is_ok(),
            "expected Ok for {band} ({hz} Hz)"
        );
    }
}

#[test]
fn band_change_40m_sends_psk31_calling_frequency() {
    let (mut radio, log) = make_ft991a(";");
    radio.set_frequency(7_035_000.0 as u64, 0).unwrap();
    assert_eq!(log.lock().unwrap()[0], "FA00007035000;");
}

#[test]
fn band_edges_are_inside_and_their_neighbours_outside() {
    let bands: [(u64, u64); 13] = [
        (1_800_000, 2_000_000),
        (3_500_000, 4_000_000),
        (5_332_000, 5_405_000),
        (7_000_000, 7_300_000),
        (10_100_000, 10_150_000),
        (14_000_000, 14_350_000),
        (18_068_000, 18_168_000),
        (21_000_000, 21_450_000),
        (24_890_000, 24_990_000),
        (28_000_000, 29_700_000),
        (50_000_000, 54_000_000),
        (144_000_000, 148_000_000),
        (420_000_000, 450_000_000),
    ];
    for (low, high) in bands {
        assert!(is_amateur_frequency(low));
        assert!(is_amateur_frequency(high));
        assert!(is_amateur_frequency((low + high) / 2));
        assert!(!is_amateur_frequency(low - 1));
        assert!(!is_amateur_frequency(high + 1));
    }
    assert!(!is_amateur_frequency(0));
    assert!(!is_amateur_frequency(10_000_000));
    assert!(!is_amateur_frequency(u64::MAX));
}

#[test]
fn out_of_band_error_names_the_frequency() {
    let (mut radio, log) = make_ft991a(";");
    assert_eq!(
        radio.set_frequency(10_000_000, 0),
        Err(cat_error("Frequency 10000000 Hz is outside US amateur bands"))
    );
    assert_eq!(
        radio.set_frequency(0, 0),
        Err(cat_error("Frequency 0 Hz is outside US amateur bands"))
    );
    assert!(log.lock().unwrap().is_empty());
    assert_eq!(
        Ft991aRadio::parse_frequency("FA00005000000;"),
        Err(cat_error("Frequency 5000000 Hz is outside US amateur bands"))
    );
}

#[test]
fn every_band_frequency_goes_out_as_fa_and_eleven_digits() {
    for hz in [1_800_000u64, 2_000_000, 14_070_000, 146_520_000, 420_000_000, 450_000_000] {
        let (mut radio, log) = make_ft991a(";");
        assert_eq!(radio.set_frequency(hz, 0), Ok(()));
        assert_eq!(*log.lock().unwrap(), vec![format!("FA{hz:011};")]);
    }
}

#[test]
fn get_frequency_checks_the_band_of_the_answer() {
    let (mut radio, log) = make_ft991a("FA00014070000;");
    assert_eq!(radio.get_frequency(0), Ok(14_070_000));
    assert_eq!(log.lock().unwrap()[0], "FA;");

    let (mut radio, _) = make_ft991a("FA00010000000;");
    assert_eq!(
        radio.get_frequency(0),
        Err(cat_error("Frequency 10000000 Hz is outside US amateur bands"))
    );
}

#[test]
fn tx_power_up_to_a_hundred_watts_is_sent() {
    for watts in [0u32, 1, 25, 99, 100] {
        let (mut radio, log) = make_ft991a(";");
        assert_eq!(radio.set_tx_power(watts, 0), Ok(()));
        assert_eq!(*log.lock().unwrap(), vec![format!("PC{watts:03};")]);
    }
}

#[test]
fn tx_power_above_a_hundred_watts_is_refused_before_sending() {
    assert_eq!(MAX_TX_POWER_WATTS, 100);
    for watts in [101u32, 150, 999, 1000, u32::MAX] {
        let (mut radio, log) = make_ft991a(";");
        assert_eq!(
            radio.set_tx_power(watts, 0),
            Err(cat_error(&format!("TX power {watts} W exceeds 100 W")))
        );
        assert!(log.lock().unwrap().is_empty());
    }
}

#[test]
fn get_tx_power_returns_the_watts() {
    let (mut radio, log) = make_ft991a("PC;PC050;");
    assert_eq!(radio.get_tx_power(0), Ok(50));
    assert_eq!(log.lock().unwrap()[0], "PC;");
}

#[test]
fn mode_is_read_and_set_by_name() {
    let (mut radio, log) = make_ft991a("MD0C;");
    assert_eq!(radio.get_mode(0), Ok("DATA-USB".to_string()));
    assert_eq!(log.lock().unwrap()[0], "MD0;");

    let (mut radio, log) = make_ft991a(";");
    assert_eq!(radio.set_mode("RTTY-USB", 0), Ok(()));
    assert_eq!(*log.lock().unwrap(), vec!["MD09;".to_string()]);
}

#[test]
fn unknown_mode_name_is_refused_before_sending() {
    let (mut radio, log) = make_ft991a(";");
    assert_eq!(
        radio.set_mode("GIBBERISH", 0),
        Err(cat_error("Unknown mode name: 'GIBBERISH'"))
    );
    assert!(log.lock().unwrap().is_empty());
    assert_eq!(
        Ft991aRadio::mode_to_code("usb"),
        Err(cat_error("Unknown mode name: 'usb'"))
    );
    assert_eq!(Ft991aRadio::mode_to_code("C4FM"), Ok("E"));
}

#[test]
fn ptt_follows_the_radios_answers() {
    let log = Arc::new(Mutex::new(Vec::new()));
    let response = Arc::new(Mutex::new(";".to_string()));
    let serial = SwitchedSerial { log: Arc::clone(&log), response: Arc::clone(&response) };
    let mut radio = Ft991aRadio::new(Box::new(serial));

    assert!(!radio.is_transmitting());
    assert_eq!(radio.ptt_on(0), Ok(()));
    assert!(radio.is_transmitting());

    // A refused release leaves the adapter transmitting.
    *response.lock().unwrap() = "?;".to_string();
    assert_eq!(
        radio.ptt_off(100),
        Err(cat_error("Radio NAK for command 'TX0;': response was '?'"))
    );
    assert!(radio.is_transmitting());

    *response.lock().unwrap() = ";".to_string();
    assert_eq!(radio.ptt_off(200), Ok(()));
    assert!(!radio.is_transmitting());

    // A refused keying leaves the adapter idle.
    *response.lock().unwrap() = "?;".to_string();
    assert!(radio.ptt_on(300).is_err());
    assert!(!radio.is_transmitting());

    assert_eq!(*log.lock().unwrap(), vec!["TX1;", "TX0;", "TX0;", "TX1;"]);
}

#[test]
fn an_idle_adapter_has_nothing_to_release() {
    let (radio, log) = make_ft991a(";");
    assert_eq!(radio.release_step(0), ReleaseStep::Released);
    assert_eq!(radio.release_step(7), ReleaseStep::Released);
    assert!(log.lock().unwrap().is_empty());
}

#[test]
fn a_transmitting_adapter_is_released_with_back_off() {
    let log = Arc::new(Mutex::new(Vec::new()));
    let response = Arc::new(Mutex::new(";".to_string()));
    let serial = SwitchedSerial { log: Arc::clone(&log), response: Arc::clone(&response) };
    let mut radio = Ft991aRadio::new(Box::new(serial));
    radio.ptt_on(0).unwrap();
    *response.lock().unwrap() = "?;".to_string();

    assert_eq!(RELEASE_ATTEMPTS, 3);
    let mut delays = Vec::new();
    let mut attempts = 0;
    let mut now = 1000;
    let gave_up = loop {
        match radio.release_step(attempts) {
            ReleaseStep::Released => break false,
            ReleaseStep::GiveUp => break true,
            ReleaseStep::Attempt { delay_ms } => {
                delays.push(delay_ms);
                now += delay_ms + radio.pacing_delay_ms(now + delay_ms);
                let _ = radio.ptt_off(now);
                attempts += 1;
            }
        }
    };
    assert!(gave_up);
    assert_eq!(delays, vec![0, 10, 50]);
    assert_eq!(*log.lock().unwrap(), vec!["TX1;", "TX0;", "TX0;", "TX0;"]);
}

#[test]
fn release_stops_at_the_first_success() {
    let (mut radio, log) = make_ft991a(";");
    radio.ptt_on(0).unwrap();
    assert_eq!(radio.release_step(0), ReleaseStep::Attempt { delay_ms: 0 });
    radio.ptt_off(50).unwrap();
    assert_eq!(radio.release_step(1), ReleaseStep::Released);
    assert_eq!(*log.lock().unwrap(), vec!["TX1;", "TX0;"]);
}

#[test]
fn the_adapter_paces_its_commands() {
    let (mut radio, _) = make_ft991a(";");
    assert_eq!(radio.pacing_delay_ms(0), 0);
    radio.ptt_on(100).unwrap();
    assert_eq!(radio.pacing_delay_ms(120), 30);
    // A command that is refused before sending does not count.
    assert!(radio.set_frequency(10_000_000, 125).is_err());
    assert_eq!(radio.pacing_delay_ms(130), 20);
}

#[test]
fn answers_of_the_wrong_kind_are_errors() {
    assert_eq!(expect_accepted(Ok(CatResponse::Ack)), Ok(()));
    assert_eq!(expect_accepted(Err(cat_error("x"))), Err(cat_error("x")));
    assert_eq!(expect_frequency(Ok(CatResponse::FrequencyHz(7_000_000))), Ok(7_000_000));
    assert_eq!(
        expect_frequency(Ok(CatResponse::Ack)),
        Err(cat_error("Reply holds no frequency"))
    );
    assert_eq!(
        expect_mode(Ok(CatResponse::Mode("CW".to_string()))),
        Ok("CW".to_string())
    );
    assert_eq!(expect_mode(Ok(CatResponse::TxPower(5))), Err(cat_error("Reply holds no mode")));
    assert_eq!(expect_power(Ok(CatResponse::TxPower(5))), Ok(5));
    assert_eq!(
        expect_power(Ok(CatResponse::Ack)),
        Err(cat_error("Reply holds no transmit power"))
    );
    assert_eq!(expect_power(Err(cat_error("y"))), Err(cat_error("y")));
}
