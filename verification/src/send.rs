//! Send path: one turn of the loop that carries datagrams from the capture
//! queue to the peer. The caller polls the queue without blocking, sends
//! what it is told to send, and sleeps when told to.

use crate::level::{peak, peak_amplitude, SILENCE_THRESHOLD};
use crate::packet::{parse_wire, AudioPacket, PacketView};
use vstd::prelude::*;

verus! {

/// How long the send loop sleeps when the capture queue is empty, in
/// milliseconds.
pub const POLL_INTERVAL_MS: u64 = 1;

/// What the send loop found at the start of a turn.
pub enum SendEvent {
    /// The call was cancelled.
    Cancelled,
    /// The capture queue gave a datagram.
    Payload(Vec<u8>),
    /// The capture queue was empty.
    Empty,
}

/// What the send loop is to do in this turn.
pub enum SendAction {
    /// Leave the loop.
    Exit,
    /// Send `payload` to the peer as it is. `frame` describes the frame it
    /// holds, if it holds one.
    Transmit { payload: Vec<u8>, frame: Option<FrameInfo> },
    /// Sleep for `millis` milliseconds, then poll again.
    Sleep { millis: u64 },
}

/// Sequence number, sample count and peak of a frame.
#[derive(Clone, Copy, Debug, PartialEq, Eq, Structural)]
pub struct FrameInfo {
    pub seq: u16,
    pub samples: usize,
    pub peak: u16,
}

/// What the send path remembers between turns.
#[derive(Clone, Copy, Debug, PartialEq, Eq, Structural)]
pub struct SendState {
    /// Frames sent since the last report.
    pub packet_count: u64,
}

/// What a frame's description says of the frame `p`.
pub open spec fn describes(info: FrameInfo, p: PacketView) -> bool {
    info.seq == p.seq && info.samples == p.samples.len() && info.peak == peak(p.samples)
}

/// Describes the frame that `data` holds, if it holds one.
pub fn frame_info(data: &[u8]) -> (info: Option<FrameInfo>)
    ensures
        match info {
            Some(info) => parse_wire(data@) is Some && describes(info, parse_wire(data@)->0),
            None => parse_wire(data@) is None,
        },
{
    match AudioPacket::deserialize(data) {
        Some(packet) => Some(
            FrameInfo {
                seq: packet.seq,
                samples: packet.samples.len(),
                peak: peak_amplitude(packet.samples.as_slice()),
            },
        ),
        None => None,
    }
}

impl FrameInfo {
    /// Whether the frame's peak counts as silence.
    pub fn is_silence(&self) -> (quiet: bool)
        ensures
            quiet == (self.peak < SILENCE_THRESHOLD),
    {
        self.peak < SILENCE_THRESHOLD
    }
}

impl SendState {
    /// The state before any frame was sent.
    pub fn new() -> (state: SendState)
        ensures
            state.packet_count == 0,
    {
        SendState { packet_count: 0 }
    }

    /// Decides one turn of the send loop.
    ///
    /// A cancelled call ends the loop. A datagram from the queue is sent on
    /// unchanged, whether or not it parses, and counted if it holds a frame.
    /// An empty queue means a sleep of `POLL_INTERVAL_MS`.
    pub fn on_turn(&mut self, event: SendEvent) -> (action: SendAction)
        ensures
            match event {
                SendEvent::Cancelled => action is Exit && *final(self) == *old(self),
                SendEvent::Empty => action == (SendAction::Sleep { millis: POLL_INTERVAL_MS })
                    && *final(self) == *old(self),
                SendEvent::Payload(data) => {
                    &&& action matches SendAction::Transmit { payload, frame }
                    &&& payload@ == data@
                    &&& match frame {
                        Some(info) => {
                            &&& parse_wire(data@) is Some
                            &&& describes(info, parse_wire(data@)->0)
                            &&& final(self).packet_count == if old(self).packet_count
                                == u64::MAX {
                                u64::MAX
                            } else {
                                (old(self).packet_count + 1) as u64
                            }
                        },
                        None => parse_wire(data@) is None && *final(self) == *old(self),
                    }
                },
            },
    {
        match event {
            SendEvent::Cancelled => SendAction::Exit,
            SendEvent::Empty => SendAction::Sleep { millis: POLL_INTERVAL_MS },
            SendEvent::Payload(payload) => {
                let frame = frame_info(payload.as_slice());
                if frame.is_some() {
                    self.packet_count = self.packet_count.saturating_add(1);
                }
                SendAction::Transmit { payload, frame }
            },
        }
    }

    /// Hands out the number of frames sent in the interval that ends now and
    /// starts the next interval.
    pub fn take_report(&mut self) -> (sent: u64)
        ensures
            sent == old(self).packet_count,
            final(self).packet_count == 0,
    {
        let sent = self.packet_count;
        self.packet_count = 0;
        sent
    }
}

} // verus!
