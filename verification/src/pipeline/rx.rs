//! Reception: the states of the audio thread, the framing of samples for the
//! spectrum, and the pacing of the signal-level reports.

use vstd::prelude::*;

verus! {

/// Samples in one spectrum frame.
pub const FFT_SIZE: usize = 4096;

/// Samples by which one spectrum frame follows the one before it: half a
/// frame.
pub const HOP_SIZE: usize = 2048;

/// Loop iterations between two signal-level reports.
pub const SIGNAL_REPORT_EVERY: u32 = 100;

/// Samples that the ring buffer between capture and processing holds.
pub const RING_BUFFER_SAMPLES: usize = 8192;

/// Where the audio thread stands.
#[derive(Debug, Clone, Copy, PartialEq, Eq, Structural)]
pub enum AudioState {
    /// No stream is open.
    Stopped,
    /// Samples are coming in.
    Running,
    /// The input device went away while the stream was running.
    DeviceLost,
}

/// What can happen to the audio thread.
#[derive(Debug, Clone, Copy, PartialEq, Eq, Structural)]
pub enum AudioEvent {
    /// The stream is started.
    Start,
    /// The stop flag is set.
    StopRequested,
    /// The input reports that it is no longer running.
    InputGone,
    /// The loss of the device has been reported.
    LossReported,
}

/// The state after an event. A stream starts from stopped; a running stream
/// stops on request or loses its device; a lost device ends in stopped once
/// reported. No other event changes the state.
pub open spec fn audio_after(state: AudioState, event: AudioEvent) -> AudioState {
    match (state, event) {
        (AudioState::Stopped, AudioEvent::Start) => AudioState::Running,
        (AudioState::Running, AudioEvent::StopRequested) => AudioState::Stopped,
        (AudioState::Running, AudioEvent::InputGone) => AudioState::DeviceLost,
        (AudioState::DeviceLost, AudioEvent::LossReported) => AudioState::Stopped,
        _ => state,
    }
}

/// The state of the audio thread after an event.
pub fn audio_transition(state: AudioState, event: AudioEvent) -> (next: AudioState)
    ensures
        next == audio_after(state, event),
{
    match (state, event) {
        (AudioState::Stopped, AudioEvent::Start) => AudioState::Running,
        (AudioState::Running, AudioEvent::StopRequested) => AudioState::Stopped,
        (AudioState::Running, AudioEvent::InputGone) => AudioState::DeviceLost,
        (AudioState::DeviceLost, AudioEvent::LossReported) => AudioState::Stopped,
        _ => state,
    }
}

/// What the audio thread does at the top of one iteration.
#[derive(Debug, Clone, Copy, PartialEq, Eq, Structural)]
pub enum LoopCheck {
    /// Process the samples that have come.
    Process,
    /// Leave the loop: a stop was asked for.
    Stop,
    /// Leave the loop: the device is gone.
    DeviceLost,
}

/// What the audio thread does at the top of an iteration: a cleared running
/// flag ends the loop before anything else is looked at, and an input that is
/// no longer running ends it as a lost device.
pub fn check_loop(running_flag: bool, input_running: bool) -> (check: LoopCheck)
    ensures
        check == if !running_flag {
            LoopCheck::Stop
        } else if !input_running {
            LoopCheck::DeviceLost
        } else {
            LoopCheck::Process
        },
{
    if !running_flag {
        LoopCheck::Stop
    } else if !input_running {
        LoopCheck::DeviceLost
    } else {
        LoopCheck::Process
    }
}

/// The event that a check at the top of an iteration amounts to, if any.
pub fn loop_event(check: LoopCheck) -> (event: Option<AudioEvent>)
    ensures
        event == match check {
            LoopCheck::Process => None,
            LoopCheck::Stop => Some(AudioEvent::StopRequested),
            LoopCheck::DeviceLost => Some(AudioEvent::InputGone),
        },
{
    match check {
        LoopCheck::Process => None,
        LoopCheck::Stop => Some(AudioEvent::StopRequested),
        LoopCheck::DeviceLost => Some(AudioEvent::InputGone),
    }
}

/// The status that the user interface is told for a state of the audio
/// thread.
pub fn audio_status(state: AudioState) -> (status: &'static str)
    ensures
        status@ == match state {
            AudioState::Running => "running"@,
            AudioState::Stopped => "stopped"@,
            AudioState::DeviceLost => "error: audio device lost"@,
        },
{
    match state {
        AudioState::Running => "running",
        AudioState::Stopped => "stopped",
        AudioState::DeviceLost => "error: audio device lost",
    }
}

/// Counts loop iterations and says when a signal-level report is due.
pub struct SignalThrottle {
    counter: u32,
}

impl SignalThrottle {
    /// The count starts again before it reaches a hundred.
    #[verifier::type_invariant]
    spec fn bounded(&self) -> bool {
        self.counter < SIGNAL_REPORT_EVERY
    }

    /// Iterations since the last report.
    pub closed spec fn count(&self) -> nat {
        self.counter as nat
    }

    /// A throttle that has counted nothing.
    pub fn new() -> (throttle: Self)
        ensures
            throttle.count() == 0,
    {
        SignalThrottle { counter: 0 }
    }

    /// Counts one iteration. Every hundredth iteration a report is due, and
    /// the count starts again.
    pub fn tick(&mut self) -> (due: bool)
        ensures
            due == (old(self).count() + 1 >= SIGNAL_REPORT_EVERY),
            final(self).count() == if due {
                0
            } else {
                old(self).count() + 1
            },
    {
        proof {
            use_type_invariant(&*self);
        }
        let next: u32 = self.counter + 1;
        if next >= SIGNAL_REPORT_EVERY {
            *self = SignalThrottle { counter: 0 };
            true
        } else {
            *self = SignalThrottle { counter: next };
            false
        }
    }
}

/// Gathers samples and hands them out as frames that overlap.
pub struct FrameBuffer<T> {
    samples: Vec<T>,
    frame_len: usize,
    hop: usize,
}

impl<T> FrameBuffer<T> {
    /// A frame is at least one hop long, and a hop at least one sample.
    #[verifier::type_invariant]
    spec fn shaped(&self) -> bool {
        0 < self.hop <= self.frame_len
    }
}

impl<T: Copy> FrameBuffer<T> {
    /// The samples that are held, oldest first.
    pub closed spec fn held(&self) -> Seq<T> {
        self.samples@
    }

    /// Samples in a frame.
    pub closed spec fn frame_len(&self) -> nat {
        self.frame_len as nat
    }

    /// Samples by which a frame follows the one before it.
    pub closed spec fn hop(&self) -> nat {
        self.hop as nat
    }

    /// An empty buffer for frames of `frame_len` samples that follow each
    /// other by `hop` samples, where a frame is at least one hop long and a hop
    /// at least one sample.
    pub fn new(frame_len: usize, hop: usize) -> (buffer: Option<Self>)
        ensures
            buffer is Some <==> 0 < hop <= frame_len,
            buffer matches Some(made) ==> made.held() == Seq::<T>::empty() && made.frame_len()
                == frame_len && made.hop() == hop,
    {
        if 0 < hop && hop <= frame_len {
            Some(FrameBuffer { samples: Vec::new(), frame_len, hop })
        } else {
            None
        }
    }

    /// Takes new samples in behind those that are held.
    pub fn extend(&mut self, samples: &[T])
        ensures
            final(self).held() == old(self).held() + samples@,
            final(self).frame_len() == old(self).frame_len(),
            final(self).hop() == old(self).hop(),
    {
        proof {
            use_type_invariant(&*self);
        }
        let mut held: Vec<T> = Vec::new();
        core::mem::swap(&mut held, &mut self.samples);
        let ghost before = held@;
        let mut i: usize = 0;
        while i < samples.len()
            invariant
                i <= samples.len(),
                held@ == before + samples@.take(i as int),
            decreases samples.len() - i,
        {
            held.push(samples[i]);
            i += 1;
            assert(held@ =~= before + samples@.take(i as int));
        }
        assert(samples@.take(samples.len() as int) =~= samples@);
        *self = FrameBuffer { samples: held, frame_len: self.frame_len, hop: self.hop };
    }

    /// Hands out the next frame, where enough samples are held: the oldest
    /// `frame_len` samples. The oldest `hop` samples then leave the buffer, so
    /// that the next frame begins `hop` samples later.
    pub fn next_frame(&mut self) -> (frame: Option<Vec<T>>)
        ensures
            final(self).frame_len() == old(self).frame_len(),
            final(self).hop() == old(self).hop(),
            old(self).held().len() < old(self).frame_len() ==> frame is None && final(self).held()
                == old(self).held(),
            old(self).held().len() >= old(self).frame_len() ==> frame is Some && frame.unwrap()@
                == old(self).held().take(old(self).frame_len() as int) && final(self).held() == old(
                self,
            ).held().skip(old(self).hop() as int),
    {
        proof {
            use_type_invariant(&*self);
        }
        if self.samples.len() < self.frame_len {
            return None;
        }
        let mut frame: Vec<T> = Vec::new();
        let mut i: usize = 0;
        while i < self.frame_len
            invariant
                i <= self.frame_len <= self.samples.len(),
                frame@ == self.samples@.take(i as int),
            decreases self.frame_len - i,
        {
            frame.push(self.samples[i]);
            i += 1;
            assert(frame@ =~= self.samples@.take(i as int));
        }
        let mut rest: Vec<T> = Vec::new();
        let mut k: usize = self.hop;
        while k < self.samples.len()
            invariant
                self.hop <= k <= self.samples.len(),
                rest@ == self.samples@.subrange(self.hop as int, k as int),
            decreases self.samples.len() - k,
        {
            rest.push(self.samples[k]);
            k += 1;
            assert(rest@ =~= self.samples@.subrange(self.hop as int, k as int));
        }
        *self = FrameBuffer { samples: rest, frame_len: self.frame_len, hop: self.hop };
        Some(frame)
    }
}

} // verus!
