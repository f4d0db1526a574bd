use baudacious::domain::error::Psk31Error;
use baudacious::domain::types::{default_tx_power_watts, AudioDeviceInfo, SerialPortInfo};
use baudacious::dsp::raised_cosine::{Half, RaisedCosineShaper};
use baudacious::pipeline::rx::{
    audio_status, audio_transition, check_loop, loop_event, AudioEvent, AudioState, FrameBuffer,
    LoopCheck, SignalThrottle, FFT_SIZE, HOP_SIZE, RING_BUFFER_SAMPLES, SIGNAL_REPORT_EVERY,
};
use baudacious::pipeline::tx::{
    plan_fill, poll_event, poll_tx, tx_status, tx_transition, Fill, TxEvent, TxPoll, TxState,
};

#[test]
fn transmission_starts_from_idle_and_ends_once() {
    assert_eq!(tx_transition(TxState::Idle, TxEvent::Start), TxState::Transmitting);
    assert_eq!(
        tx_transition(TxState::Transmitting, TxEvent::BufferDrained),
        TxState::Complete
    );
    assert_eq!(tx_transition(TxState::Transmitting, TxEvent::Abort), TxState::Aborted);
    // Everything else leaves the state as it is.
    assert_eq!(tx_transition(TxState::Idle, TxEvent::Abort), TxState::Idle);
    assert_eq!(tx_transition(TxState::Idle, TxEvent::BufferDrained), TxState::Idle);
    assert_eq!(tx_transition(TxState::Transmitting, TxEvent::Start), TxState::Transmitting);
    for event in [TxEvent::Start, TxEvent::BufferDrained, TxEvent::Abort] {
        assert_eq!(tx_transition(TxState::Complete, event), TxState::Complete);
        assert_eq!(tx_transition(TxState::Aborted, event), TxState::Aborted);
    }
}

#[test]
fn abort_goes_before_completion() {
    assert_eq!(poll_tx(true, true), TxPoll::Abort);
    assert_eq!(poll_tx(true, false), TxPoll::Abort);
    assert_eq!(poll_tx(false, true), TxPoll::Finish);
    assert_eq!(poll_tx(false, false), TxPoll::Report);
}

#[test]
fn playback_copies_what_is_left_and_fills_with_silence() {
    assert_eq!(
        plan_fill(0, 1000, 256),
        Fill { start: 0, copy: 256, silence: 0, next_position: 256, drained: false }
    );
    assert_eq!(
        plan_fill(768, 1000, 256),
        Fill { start: 768, copy: 232, silence: 24, next_position: 1000, drained: false }
    );
    // Nothing left: silence only, and the transmission is drained.
    assert_eq!(
        plan_fill(1000, 1000, 256),
        Fill { start: 1000, copy: 0, silence: 256, next_position: 1000, drained: true }
    );
    assert_eq!(
        plan_fill(5, 0, 16),
        Fill { start: 5, copy: 0, silence: 16, next_position: 5, drained: true }
    );
    assert_eq!(
        plan_fill(10, 20, 0),
        Fill { start: 10, copy: 0, silence: 0, next_position: 10, drained: false }
    );
    assert_eq!(
        plan_fill(usize::MAX - 1, usize::MAX, usize::MAX),
        Fill {
            start: usize::MAX - 1,
            copy: 1,
            silence: usize::MAX - 1,
            next_position: usize::MAX,
            drained: false
        }
    );
}

#[test]
fn playback_reaches_the_end_and_stays_there() {
    let total = 129_024;
    let mut position = 0;
    let mut copied = 0;
    let mut requests = 0;
    loop {
        let fill = plan_fill(position, total, 480);
        assert_eq!(fill.copy + fill.silence, 480);
        assert!(fill.start + fill.copy <= total);
        copied += fill.copy;
        position = fill.next_position;
        requests += 1;
        if fill.drained {
            break;
        }
    }
    assert_eq!(copied, total);
    assert_eq!(position, total);
    assert_eq!(requests, total / 480 + 2);
}

#[test]
fn audio_thread_states() {
    assert_eq!(audio_transition(AudioState::Stopped, AudioEvent::Start), AudioState::Running);
    assert_eq!(
        audio_transition(AudioState::Running, AudioEvent::StopRequested),
        AudioState::Stopped
    );
    assert_eq!(
        audio_transition(AudioState::Running, AudioEvent::InputGone),
        AudioState::DeviceLost
    );
    assert_eq!(
        audio_transition(AudioState::DeviceLost, AudioEvent::LossReported),
        AudioState::Stopped
    );
    assert_eq!(audio_transition(AudioState::Running, AudioEvent::Start), AudioState::Running);
    assert_eq!(
        audio_transition(AudioState::Stopped, AudioEvent::InputGone),
        AudioState::Stopped
    );
    assert_eq!(
        audio_transition(AudioState::DeviceLost, AudioEvent::Start),
        AudioState::DeviceLost
    );
}

#[test]
fn the_stop_flag_is_looked_at_first() {
    assert_eq!(check_loop(false, false), LoopCheck::Stop);
    assert_eq!(check_loop(false, true), LoopCheck::Stop);
    assert_eq!(check_loop(true, false), LoopCheck::DeviceLost);
    assert_eq!(check_loop(true, true), LoopCheck::Process);
}

#[test]
fn audio_status_texts() {
    assert_eq!(audio_status(AudioState::Running), "running");
    assert_eq!(audio_status(AudioState::Stopped), "stopped");
    assert_eq!(audio_status(AudioState::DeviceLost), "error: audio device lost");
}

#[test]
fn the_audio_thread_ends_as_stopped_or_as_lost() {
    let running = audio_transition(AudioState::Stopped, AudioEvent::Start);
    assert_eq!(loop_event(LoopCheck::Process), None);
    let stop = loop_event(check_loop(false, true)).unwrap();
    assert_eq!(audio_status(audio_transition(running, stop)), "stopped");
    let lost = loop_event(check_loop(true, false)).unwrap();
    assert_eq!(audio_status(audio_transition(running, lost)), "error: audio device lost");
}

#[test]
fn tx_status_texts() {
    assert_eq!(tx_status(TxState::Idle), "idle");
    assert_eq!(tx_status(TxState::Transmitting), "transmitting");
    assert_eq!(tx_status(TxState::Complete), "complete");
    assert_eq!(tx_status(TxState::Aborted), "aborted");
}

#[test]
fn a_transmission_ends_as_complete_or_as_aborted() {
    let sending = tx_transition(TxState::Idle, TxEvent::Start);
    assert_eq!(poll_event(poll_tx(false, false)), None);
    let drained = poll_event(poll_tx(false, true)).unwrap();
    assert_eq!(tx_status(tx_transition(sending, drained)), "complete");
    let aborted = poll_event(poll_tx(true, true)).unwrap();
    assert_eq!(tx_status(tx_transition(sending, aborted)), "aborted");
}

#[test]
fn signal_level_is_due_every_hundredth_iteration() {
    assert_eq!(SIGNAL_REPORT_EVERY, 100);
    let mut throttle = SignalThrottle::new();
    let mut due_at = Vec::new();
    for iteration in 1..=350 {
        if throttle.tick() {
            due_at.push(iteration);
        }
    }
    assert_eq!(due_at, vec![100, 200, 300]);
}

#[test]
fn frames_overlap_by_half() {
    assert_eq!(FFT_SIZE, 4096);
    assert_eq!(HOP_SIZE, 2048);
    assert_eq!(RING_BUFFER_SAMPLES, 8192);
    let mut buffer: FrameBuffer<f32> = FrameBuffer::new(FFT_SIZE, HOP_SIZE).unwrap();
    let samples: Vec<f32> = (0..10_000).map(|i| i as f32).collect();
    buffer.extend(&samples[..4000]);
    assert_eq!(buffer.next_frame(), None);
    buffer.extend(&samples[4000..]);
    let first = buffer.next_frame().unwrap();
    assert_eq!(first, samples[..4096].to_vec());
    let second = buffer.next_frame().unwrap();
    assert_eq!(second, samples[2048..6144].to_vec());
    let third = buffer.next_frame().unwrap();
    assert_eq!(third, samples[4096..8192].to_vec());
    // 10 000 - 3 * 2048 = 3856 samples are left: not enough for a frame.
    assert_eq!(buffer.next_frame(), None);
    buffer.extend(&[7.0; 240]);
    let fourth = buffer.next_frame().unwrap();
    assert_eq!(fourth[..3856], samples[6144..]);
    assert_eq!(fourth[3856..], [7.0; 240]);
}

#[test]
fn frames_of_small_sizes() {
    let mut buffer: FrameBuffer<u8> = FrameBuffer::new(3, 1).unwrap();
    buffer.extend(&[1, 2, 3, 4]);
    assert_eq!(buffer.next_frame(), Some(vec![1, 2, 3]));
    assert_eq!(buffer.next_frame(), Some(vec![2, 3, 4]));
    assert_eq!(buffer.next_frame(), None);
    let mut whole: FrameBuffer<u8> = FrameBuffer::new(2, 2).unwrap();
    whole.extend(&[1, 2, 3, 4, 5]);
    assert_eq!(whole.next_frame(), Some(vec![1, 2]));
    assert_eq!(whole.next_frame(), Some(vec![3, 4]));
    assert_eq!(whole.next_frame(), None);
    // A hop of nothing would never move on, and a hop beyond the frame would
    // skip samples.
    assert!(FrameBuffer::<u8>::new(4, 0).is_none());
    assert!(FrameBuffer::<u8>::new(4, 5).is_none());
    assert!(FrameBuffer::<u8>::new(0, 0).is_none());
}

#[test]
fn the_phase_reverses_in_the_middle_of_the_symbol() {
    let shaper = RaisedCosineShaper::new(1536);
    assert_eq!(shaper.samples_per_symbol(), 1536);
    assert_eq!(shaper.half_of(0), Half::Falling);
    assert_eq!(shaper.half_of(767), Half::Falling);
    assert_eq!(shaper.half_of(768), Half::Rising);
    assert_eq!(shaper.half_of(1535), Half::Rising);
    let odd = RaisedCosineShaper::new(5);
    assert_eq!(odd.half_of(2), Half::Falling);
    assert_eq!(odd.half_of(3), Half::Rising);
    assert_eq!(odd.half_of(5), Half::Rising);
    assert_eq!(odd.half_of(usize::MAX), Half::Rising);
}

#[test]
fn error_messages_name_the_kind_of_error() {
    assert_eq!(Psk31Error::Audio("a".into()).message(), "Audio error: a");
    assert_eq!(Psk31Error::Serial("b".into()).message(), "Serial port error: b");
    assert_eq!(Psk31Error::Cat("c".into()).message(), "CAT command error: c");
    assert_eq!(Psk31Error::Modem("d".into()).message(), "Modem error: d");
    assert_eq!(Psk31Error::Config("".into()).message(), "Configuration error: ");
    assert!(Psk31Error::Serial("x".into()).is_serial());
    assert!(!Psk31Error::Cat("x".into()).is_serial());
    assert!(!Psk31Error::Audio("x".into()).is_serial());
}

#[test]
fn plain_descriptions() {
    assert_eq!(baudacious::ports::serial::DEFAULT_BAUD_RATE, 38_400);
    assert_eq!(baudacious::ports::serial::READ_TIMEOUT_MS, 100);
    assert_eq!(default_tx_power_watts(), 25);
    let port = SerialPortInfo { name: "/dev/ttyUSB0".into(), port_type: "USB (10C4:EA60)".into() };
    assert_eq!(port.clone().name, "/dev/ttyUSB0");
    let device = AudioDeviceInfo {
        id: "USB Audio CODEC".into(),
        name: "USB Audio CODEC".into(),
        is_input: true,
        is_default: false,
    };
    assert!(device.clone().is_input);
}
