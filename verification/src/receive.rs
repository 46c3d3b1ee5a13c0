//! Receive path: what one datagram does to the jitter buffer and to the
//! receiver's counters. The caller reads the socket and hands each datagram
//! in with its source address; a ping is handed back for the control task.

use crate::addr::IpAddress;
use crate::jitter::{lemma_push_push, silence, JitterBuffer, JitterView};
use crate::level::{peak, peak_amplitude, SILENCE_THRESHOLD};
use crate::packet::{parse_wire, AudioPacket, FRAME_SAMPLES, PING_SEQ};
use vstd::prelude::*;

verus! {

/// A frame whose sequence number falls behind the last one by less than this
/// is late or repeated and is dropped; one that falls behind by this much or
/// more is taken for the first frame after the sender's counter wrapped.
pub const WRAP_DISTANCE: u16 = 0x8000;

/// What the receive path remembers between datagrams.
#[derive(Clone, Copy, Debug, PartialEq, Eq, Structural)]
pub struct ReceiveState {
    /// Sequence number of the last frame taken; 0 while none was.
    pub last_seq: u16,
    /// Frames taken since the last report.
    pub packet_count: u64,
    /// Frames found missing since the last report.
    pub lost_packet_count: u64,
    /// Largest absolute sample taken since the last report.
    pub peak: u16,
}

/// What became of a datagram.
#[derive(Clone, Copy, Debug, PartialEq, Eq, Structural)]
pub enum Received {
    /// It came from this host's own address and was dropped.
    SelfEcho,
    /// It was too short to hold a frame and was dropped.
    Malformed,
    /// It was a ping; `from` is to be made known to the control task.
    Ping { from: IpAddress },
    /// It was late or repeated and was dropped.
    Stale { seq: u16 },
    /// It was a data frame: `lost` frames before it were replaced by silence,
    /// then its `samples` samples were queued, which left `depth` samples in
    /// the jitter buffer. `peak` is its largest absolute sample.
    Frame { seq: u16, lost: u16, samples: usize, peak: u16, depth: usize },
}

/// Counters of one reporting interval.
#[derive(Clone, Copy, Debug, PartialEq, Eq, Structural)]
pub struct ReceiveReport {
    pub packets: u64,
    pub lost: u64,
    pub peak: u16,
    pub last_seq: u16,
    pub depth: usize,
}

/// Whether a frame numbered `seq` is late or repeated after one numbered
/// `last_seq`.
pub open spec fn is_stale(last_seq: u16, seq: u16) -> bool {
    last_seq != 0 && seq <= last_seq && last_seq - seq < WRAP_DISTANCE
}

/// Number of frames missing between the frame numbered `last_seq` and the
/// one numbered `seq`. None is missing before the first frame, nor when the
/// number did not move forward.
pub open spec fn frames_lost(last_seq: u16, seq: u16) -> nat {
    if last_seq != 0 && seq > last_seq + 1 {
        (seq - last_seq - 1) as nat
    } else {
        0
    }
}

/// Sum of a counter and an increment, held at the counter's largest value.
pub open spec fn counted(count: u64, more: nat) -> u64 {
    if count + more > u64::MAX {
        u64::MAX
    } else {
        (count + more) as u64
    }
}

/// The larger of two levels.
pub open spec fn louder(a: u16, b: nat) -> nat {
    if b > a {
        b
    } else {
        a as nat
    }
}

/// The receive path after a datagram: its state, the jitter buffer, and what
/// became of the datagram.
pub struct ReceiveStep {
    pub state: ReceiveState,
    pub jitter: JitterView,
    pub outcome: Received,
}

/// What a datagram `data` from `source` does on the host whose own address
/// is `local_ip`.
///
/// A datagram from `local_ip` and one too short to parse change nothing. A
/// ping changes nothing and names its source. A late or repeated data frame
/// changes nothing. Any other data frame queues silence for each frame
/// missing before it, `FRAME_SAMPLES` samples apiece, then its own samples,
/// and becomes the last frame taken.
pub open spec fn receive_step(
    state: ReceiveState,
    jitter: JitterView,
    local_ip: IpAddress,
    source: IpAddress,
    data: Seq<u8>,
) -> ReceiveStep {
    if source == local_ip {
        ReceiveStep { state, jitter, outcome: Received::SelfEcho }
    } else {
        match parse_wire(data) {
            None => ReceiveStep { state, jitter, outcome: Received::Malformed },
            Some(p) => {
                if p.seq == PING_SEQ {
                    ReceiveStep { state, jitter, outcome: Received::Ping { from: source } }
                } else if is_stale(state.last_seq, p.seq) {
                    ReceiveStep { state, jitter, outcome: Received::Stale { seq: p.seq } }
                } else {
                    let lost = frames_lost(state.last_seq, p.seq);
                    let filled = jitter.push(silence(lost * FRAME_SAMPLES as nat)).push(p.samples);
                    ReceiveStep {
                        state: ReceiveState {
                            last_seq: p.seq,
                            packet_count: counted(state.packet_count, 1),
                            lost_packet_count: counted(state.lost_packet_count, lost),
                            peak: louder(state.peak, peak(p.samples)) as u16,
                        },
                        jitter: filled,
                        outcome: Received::Frame {
                            seq: p.seq,
                            lost: lost as u16,
                            samples: p.samples.len() as usize,
                            peak: peak(p.samples) as u16,
                            depth: filled.samples.len() as usize,
                        },
                    }
                }
            },
        }
    }
}

/// Self-echo suppression: a datagram whose source is this host's own address
/// is dropped, whatever it holds, and leaves the receiver's state and the
/// jitter buffer as they were; no peer is learned from it.
pub proof fn lemma_self_echo_dropped(
    state: ReceiveState,
    jitter: JitterView,
    local_ip: IpAddress,
    data: Seq<u8>,
)
    ensures
        receive_step(state, jitter, local_ip, local_ip, data) == (ReceiveStep {
            state,
            jitter,
            outcome: Received::SelfEcho,
        }),
{
}

/// Only a data frame that is taken changes the receiver's state or the
/// jitter buffer.
pub proof fn lemma_only_frames_change(
    state: ReceiveState,
    jitter: JitterView,
    local_ip: IpAddress,
    source: IpAddress,
    data: Seq<u8>,
)
    ensures
        ({
            let step = receive_step(state, jitter, local_ip, source, data);
            !(step.outcome is Frame) ==> step.state == state && step.jitter == jitter
        }),
{
}

/// A peer is learned only from a ping that did not come from this host, and
/// the peer learned is the ping's source.
pub proof fn lemma_ping_names_source(
    state: ReceiveState,
    jitter: JitterView,
    local_ip: IpAddress,
    source: IpAddress,
    data: Seq<u8>,
)
    ensures
        ({
            let step = receive_step(state, jitter, local_ip, source, data);
            &&& step.outcome is Ping <==> source != local_ip && data.len() >= 2 && data[0] == 0
                && data[1] == 0
            &&& step.outcome is Ping ==> step.outcome == Received::Ping { from: source }
        }),
{
}

/// Loss concealment: a frame that follows a gap of `lost` frames leaves the
/// jitter buffer as one push of `lost` frames of silence followed by the
/// frame's samples does.
pub proof fn lemma_gap_concealed(
    state: ReceiveState,
    jitter: JitterView,
    local_ip: IpAddress,
    source: IpAddress,
    data: Seq<u8>,
)
    requires
        receive_step(state, jitter, local_ip, source, data).outcome is Frame,
    ensures
        ({
            let step = receive_step(state, jitter, local_ip, source, data);
            let p = parse_wire(data)->0;
            let lost = frames_lost(state.last_seq, p.seq);
            &&& step.outcome->lost == lost
            &&& step.state.last_seq == p.seq
            &&& step.jitter == jitter.push(silence(lost * FRAME_SAMPLES as nat) + p.samples)
        }),
{
    let p = parse_wire(data)->0;
    let lost = frames_lost(state.last_seq, p.seq);
    lemma_push_push(jitter, silence(lost * FRAME_SAMPLES as nat), p.samples);
}

impl ReceiveState {
    /// The state before any frame was taken.
    pub fn new() -> (state: ReceiveState)
        ensures
            state == (ReceiveState { last_seq: 0, packet_count: 0, lost_packet_count: 0, peak: 0 }),
    {
        ReceiveState { last_seq: 0, packet_count: 0, lost_packet_count: 0, peak: 0 }
    }

    /// Takes one datagram `data` that came from `source`.
    pub fn on_datagram(
        &mut self,
        jitter: &mut JitterBuffer,
        local_ip: IpAddress,
        source: IpAddress,
        data: &[u8],
    ) -> (outcome: Received)
        ensures
            (ReceiveStep { state: *final(self), jitter: final(jitter)@, outcome }) == receive_step(
                *old(self),
                old(jitter)@,
                local_ip,
                source,
                data@,
            ),
    {
        if source == local_ip {
            return Received::SelfEcho;
        }
        let packet = match AudioPacket::deserialize(data) {
            Some(packet) => packet,
            None => {
                return Received::Malformed;
            },
        };
        let seq: u16 = packet.seq;
        if seq == PING_SEQ {
            return Received::Ping { from: source };
        }
        let last: u16 = self.last_seq;
        if last != 0 && seq <= last && last - seq < WRAP_DISTANCE {
            return Received::Stale { seq };
        }
        let lost: u16 = if last != 0 && (seq as u32) > (last as u32) + 1 {
            seq - last - 1
        } else {
            0
        };
        if lost > 0 {
            jitter.push_silence((lost as usize) * FRAME_SAMPLES);
        } else {
            proof {
                lemma_push_push(old(jitter)@, silence(0), packet.samples@);
                assert(silence(0) + packet.samples@ =~= packet.samples@);
            }
        }
        jitter.push_packet(packet.samples.as_slice());
        let level: u16 = peak_amplitude(packet.samples.as_slice());
        self.last_seq = seq;
        self.packet_count = self.packet_count.saturating_add(1);
        self.lost_packet_count = self.lost_packet_count.saturating_add(lost as u64);
        if level > self.peak {
            self.peak = level;
        }
        Received::Frame { seq, lost, samples: packet.samples.len(), peak: level, depth: jitter.len() }
    }

    /// Hands out the counters of the interval that ends now, with the depth
    /// of the jitter buffer, and starts the next interval.
    pub fn take_report(&mut self, jitter: &JitterBuffer) -> (report: ReceiveReport)
        ensures
            report == (ReceiveReport {
                packets: old(self).packet_count,
                lost: old(self).lost_packet_count,
                peak: old(self).peak,
                last_seq: old(self).last_seq,
                depth: jitter@.samples.len() as usize,
            }),
            *final(self) == (ReceiveState {
                last_seq: old(self).last_seq,
                packet_count: 0,
                lost_packet_count: 0,
                peak: 0,
            }),
    {
        let report = ReceiveReport {
            packets: self.packet_count,
            lost: self.lost_packet_count,
            peak: self.peak,
            last_seq: self.last_seq,
            depth: jitter.len(),
        };
        self.packet_count = 0;
        self.lost_packet_count = 0;
        self.peak = 0;
        report
    }
}

/// Share of lost frames among `packets` taken and `lost` missing, in tenths
/// of a percent, rounded down; 0 where no frame was taken.
pub open spec fn loss_rate(packets: u64, lost: u64) -> nat {
    if packets == 0 {
        0
    } else {
        ((lost * 1000) / (packets + lost)) as nat
    }
}

impl ReceiveReport {
    /// Share of lost frames in the interval, in tenths of a percent.
    pub fn loss_permille(&self) -> (rate: u16)
        ensures
            rate == loss_rate(self.packets, self.lost),
            rate <= 1000,
    {
        if self.packets == 0 {
            return 0;
        }
        let lost: u128 = self.lost as u128;
        let total: u128 = self.packets as u128 + lost;
        let rate: u128 = (lost * 1000) / total;
        assert(rate <= 1000) by (nonlinear_arith)
            requires
                rate as int == (lost as int * 1000) / (total as int),
                0 <= lost <= total,
                total > 0,
        ;
        rate as u16
    }

    /// Whether the interval's peak counts as silence.
    pub fn is_silence(&self) -> (quiet: bool)
        ensures
            quiet == (self.peak < SILENCE_THRESHOLD),
    {
        self.peak < SILENCE_THRESHOLD
    }
}

} // verus!
