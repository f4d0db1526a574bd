//! Transmission: the states of the transmit thread and the playback of the
//! encoded samples.

use vstd::prelude::*;

verus! {

/// Where a transmission stands.
#[derive(Debug, Clone, Copy, PartialEq, Eq, Structural)]
pub enum TxState {
    /// Nothing is being sent.
    Idle,
    /// Samples are being played.
    Transmitting,
    /// Every sample has been played.
    Complete,
    /// The operator stopped the transmission.
    Aborted,
}

/// What can happen to a transmission.
#[derive(Debug, Clone, Copy, PartialEq, Eq, Structural)]
pub enum TxEvent {
    /// A transmission is started.
    Start,
    /// The output device has taken the last sample.
    BufferDrained,
    /// The abort flag is set.
    Abort,
}

/// The state after an event. A transmission starts from idle and ends by
/// draining or by abort; no other event changes the state.
pub open spec fn tx_after(state: TxState, event: TxEvent) -> TxState {
    match (state, event) {
        (TxState::Idle, TxEvent::Start) => TxState::Transmitting,
        (TxState::Transmitting, TxEvent::BufferDrained) => TxState::Complete,
        (TxState::Transmitting, TxEvent::Abort) => TxState::Aborted,
        _ => state,
    }
}

/// The state of a transmission after an event.
pub fn tx_transition(state: TxState, event: TxEvent) -> (next: TxState)
    ensures
        next == tx_after(state, event),
{
    match (state, event) {
        (TxState::Idle, TxEvent::Start) => TxState::Transmitting,
        (TxState::Transmitting, TxEvent::BufferDrained) => TxState::Complete,
        (TxState::Transmitting, TxEvent::Abort) => TxState::Aborted,
        _ => state,
    }
}

/// What the transmit thread does on one of its ticks.
#[derive(Debug, Clone, Copy, PartialEq, Eq, Structural)]
pub enum TxPoll {
    /// Stop the output and report the abort with the progress so far.
    Abort,
    /// Let the device play out, stop the output and report completion.
    Finish,
    /// Report the progress and wait for the next tick.
    Report,
}

/// What the transmit thread does on a tick: an abort goes before completion,
/// completion before a progress report.
pub fn poll_tx(abort: bool, done: bool) -> (action: TxPoll)
    ensures
        action == if abort {
            TxPoll::Abort
        } else if done {
            TxPoll::Finish
        } else {
            TxPoll::Report
        },
{
    if abort {
        TxPoll::Abort
    } else if done {
        TxPoll::Finish
    } else {
        TxPoll::Report
    }
}

/// The event that the action of a tick amounts to, if any.
pub fn poll_event(action: TxPoll) -> (event: Option<TxEvent>)
    ensures
        event == match action {
            TxPoll::Abort => Some(TxEvent::Abort),
            TxPoll::Finish => Some(TxEvent::BufferDrained),
            TxPoll::Report => None,
        },
{
    match action {
        TxPoll::Abort => Some(TxEvent::Abort),
        TxPoll::Finish => Some(TxEvent::BufferDrained),
        TxPoll::Report => None,
    }
}

/// The status that the user interface is told for a state of a transmission.
pub fn tx_status(state: TxState) -> (status: &'static str)
    ensures
        status@ == match state {
            TxState::Idle => "idle"@,
            TxState::Transmitting => "transmitting"@,
            TxState::Complete => "complete"@,
            TxState::Aborted => "aborted"@,
        },
{
    match state {
        TxState::Idle => "idle",
        TxState::Transmitting => "transmitting",
        TxState::Complete => "complete",
        TxState::Aborted => "aborted",
    }
}

/// How one request of the output device for samples is met.
#[derive(Debug, Clone, Copy, PartialEq, Eq, Structural)]
pub struct Fill {
    /// Index of the first sample to copy.
    pub start: usize,
    /// Samples to copy to the front of the device's buffer.
    pub copy: usize,
    /// Samples of silence that fill the rest of the device's buffer.
    pub silence: usize,
    /// The playback position after the request.
    pub next_position: usize,
    /// Whether the request found nothing left to play.
    pub drained: bool,
}

/// How a request for `wanted` samples is met at a playback position, out of
/// `total` samples. The device gets as many of the samples that are left as it
/// wants, and silence for the rest. A request that finds nothing left gets
/// silence only and marks the transmission as drained.
pub open spec fn fill_at(position: usize, total: usize, wanted: usize) -> Fill {
    if position >= total {
        Fill { start: position, copy: 0, silence: wanted, next_position: position, drained: true }
    } else {
        let left = total - position;
        let copy = if wanted <= left {
            wanted as int
        } else {
            left
        };
        Fill {
            start: position,
            copy: copy as usize,
            silence: (wanted - copy) as usize,
            next_position: (position + copy) as usize,
            drained: false,
        }
    }
}

/// Plans how a request of the output device for `wanted` samples is met.
pub fn plan_fill(position: usize, total: usize, wanted: usize) -> (fill: Fill)
    ensures
        fill == fill_at(position, total, wanted),
        fill.copy + fill.silence == wanted,
        fill.start + fill.copy <= total || fill.copy == 0,
        fill.next_position == fill.start + fill.copy,
{
    if position >= total {
        Fill { start: position, copy: 0, silence: wanted, next_position: position, drained: true }
    } else {
        let left: usize = total - position;
        let copy: usize = if wanted <= left {
            wanted
        } else {
            left
        };
        Fill {
            start: position,
            copy,
            silence: wanted - copy,
            next_position: position + copy,
            drained: false,
        }
    }
}

/// The playback position after requests of the given sizes, one after the
/// other, starting at `position`.
pub open spec fn position_after(position: usize, total: usize, requests: Seq<usize>) -> usize
    decreases requests.len(),
{
    if requests.len() == 0 {
        position
    } else {
        fill_at(
            position_after(position, total, requests.drop_last()),
            total,
            requests.last(),
        ).next_position
    }
}

/// Playback never runs past the end: from a position inside the samples, the
/// position stays inside them whatever the device asks for.
pub proof fn lemma_position_bounded(position: usize, total: usize, requests: Seq<usize>)
    requires
        position <= total,
    ensures
        position <= position_after(position, total, requests) <= total,
    decreases requests.len(),
{
    if requests.len() > 0 {
        lemma_position_bounded(position, total, requests.drop_last());
    }
}

} // verus!
