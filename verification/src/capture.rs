//! Capture path: samples from the host device are gathered into frames of
//! `FRAME_SAMPLES` samples, and each full frame leaves as a datagram with the
//! next sequence number.

use crate::packet::{
    is_data_frame, wire_bytes, AudioPacket, PacketView, FRAME_SAMPLES, PING_SEQ,
};
use vstd::prelude::*;

verus! {

/// Sequence number of the first data frame of a capture.
pub const FIRST_SEQ: u16 = 1;

/// Fewest datagrams the queue from the capture path to the send path holds.
pub const SEND_QUEUE_CAPACITY: usize = 128;

/// The sequence number after `seq`: one more, and after the largest back to
/// `FIRST_SEQ`, so that the ping's number is never given to a data frame.
pub open spec fn seq_after(seq: u16) -> u16 {
    if seq == u16::MAX {
        FIRST_SEQ
    } else {
        (seq + 1) as u16
    }
}

/// The sequence number `count` frames after `seq`.
pub open spec fn seq_advance(seq: u16, count: nat) -> u16
    decreases count,
{
    if count == 0 {
        seq
    } else {
        seq_after(seq_advance(seq, (count - 1) as nat))
    }
}

/// Sequence numbers of data frames are never the ping's, and they count
/// through 1 to 65535 in a cycle.
pub proof fn lemma_seq_advance(seq: u16, count: nat)
    requires
        seq != PING_SEQ,
    ensures
        seq_advance(seq, count) != PING_SEQ,
        seq_advance(seq, count) as int == (seq - 1 + count) % 65535 + 1,
    decreases count,
{
    if count > 0 {
        lemma_seq_advance(seq, (count - 1) as nat);
    }
}

/// Every frame that leaves a framer whose next sequence number is not the
/// ping's is a data frame, and its datagram has 1922 bytes.
pub proof fn lemma_frames_are_data_frames(v: FramerView, samples: Seq<i16>, j: int)
    requires
        v.next_seq != PING_SEQ,
        0 <= j < v.frames_ready(samples),
    ensures
        is_data_frame(v.frame(samples, j)),
        wire_bytes(v.frame(samples, j)).len() == 1922,
{
    lemma_seq_advance(v.next_seq, j as nat);
}

/// Gathers captured samples into frames.
pub struct CaptureFramer {
    pending: Vec<i16>,
    next_seq: u16,
}

/// Mathematical value of a framer: the samples that wait for a full frame,
/// and the sequence number of the next frame.
pub struct FramerView {
    pub pending: Seq<i16>,
    pub next_seq: u16,
}

impl FramerView {
    /// A new framer: nothing waits, and the next frame is the first.
    pub open spec fn fresh() -> FramerView {
        FramerView { pending: Seq::empty(), next_seq: FIRST_SEQ }
    }

    /// The samples at hand once `samples` have come in.
    pub open spec fn stream(self, samples: Seq<i16>) -> Seq<i16> {
        self.pending + samples
    }

    /// Number of full frames at hand once `samples` have come in.
    pub open spec fn frames_ready(self, samples: Seq<i16>) -> nat {
        self.stream(samples).len() / (FRAME_SAMPLES as nat)
    }

    /// The `j`-th frame that leaves once `samples` have come in.
    pub open spec fn frame(self, samples: Seq<i16>, j: int) -> PacketView {
        PacketView {
            seq: seq_advance(self.next_seq, j as nat),
            samples: self.stream(samples).subrange(
                j * FRAME_SAMPLES as int,
                (j + 1) * FRAME_SAMPLES as int,
            ),
        }
    }

    /// The datagrams that leave once `samples` have come in, in order.
    pub open spec fn datagrams(self, samples: Seq<i16>) -> Seq<Seq<u8>> {
        Seq::new(self.frames_ready(samples), |j: int| wire_bytes(self.frame(samples, j)))
    }

    /// The framer once `samples` have come in and every full frame has left.
    pub open spec fn feed(self, samples: Seq<i16>) -> FramerView {
        FramerView {
            pending: self.stream(samples).skip(
                self.frames_ready(samples) * FRAME_SAMPLES as nat as int,
            ),
            next_seq: seq_advance(self.next_seq, self.frames_ready(samples)),
        }
    }
}

impl View for CaptureFramer {
    type V = FramerView;

    closed spec fn view(&self) -> FramerView {
        FramerView { pending: self.pending@, next_seq: self.next_seq }
    }
}

impl CaptureFramer {
    #[verifier::type_invariant]
    spec fn well_formed(self) -> bool {
        self.pending@.len() < FRAME_SAMPLES && self.next_seq != PING_SEQ
    }

    /// A framer with nothing waiting, whose first frame has `FIRST_SEQ`.
    pub fn new() -> (framer: CaptureFramer)
        ensures
            framer@ == FramerView::fresh(),
    {
        CaptureFramer { pending: Vec::new(), next_seq: FIRST_SEQ }
    }

    /// Number of samples that wait for a full frame.
    pub fn pending_len(&self) -> (n: usize)
        ensures
            n == self@.pending.len(),
            n < FRAME_SAMPLES,
    {
        proof {
            use_type_invariant(self);
        }
        self.pending.len()
    }

    /// Sequence number of the next frame; never the ping's.
    pub fn next_seq(&self) -> (seq: u16)
        ensures
            seq == self@.next_seq,
            seq != PING_SEQ,
    {
        proof {
            use_type_invariant(self);
        }
        self.next_seq
    }

    /// Takes captured samples in. Returns the datagrams of the frames that
    /// became full, in order: each holds `FRAME_SAMPLES` samples in capture
    /// order and the sequence number after that of the frame before it.
    pub fn push_samples(&mut self, samples: &[i16]) -> (out: Vec<Vec<u8>>)
        ensures
            final(self)@ == old(self)@.feed(samples@),
            out@.len() == old(self)@.frames_ready(samples@),
            forall|j: int|
                0 <= j < out@.len() ==> (#[trigger] out@[j])@ == wire_bytes(
                    old(self)@.frame(samples@, j),
                ),
            forall|j: int|
                0 <= j < out@.len() ==> is_data_frame(#[trigger] old(self)@.frame(samples@, j)),
            final(self)@.next_seq != PING_SEQ,
            final(self)@.pending.len() < FRAME_SAMPLES,
    {
        proof {
            use_type_invariant(&*self);
            assert forall|j: int| 0 <= j < self@.frames_ready(samples@) implies is_data_frame(
                #[trigger] self@.frame(samples@, j),
            ) by {
                lemma_frames_are_data_frames(self@, samples@, j);
            }
        }
        let ghost start = self@;
        let ghost stream = start.stream(samples@);
        let mut pending: Vec<i16> = Vec::new();
        core::mem::swap(&mut self.pending, &mut pending);
        let mut seq: u16 = self.next_seq;
        let mut out: Vec<Vec<u8>> = Vec::new();
        let n: usize = samples.len();
        let mut i: usize = 0;
        while i < n
            invariant
                n == samples.len(),
                i <= n,
                stream == start.pending + samples@,
                pending@.len() < FRAME_SAMPLES,
                seq != PING_SEQ,
                out@.len() * FRAME_SAMPLES + pending@.len() == start.pending.len() + i,
                pending@ == stream.subrange(
                    out@.len() * FRAME_SAMPLES,
                    start.pending.len() + i,
                ),
                seq == seq_advance(start.next_seq, out@.len()),
                forall|j: int|
                    0 <= j < out@.len() ==> (#[trigger] out@[j])@ == wire_bytes(
                        start.frame(samples@, j),
                    ),
            decreases n - i,
        {
            let ghost sent = out@.len();
            pending.push(samples[i]);
            assert(pending@ =~= stream.subrange(
                sent * FRAME_SAMPLES,
                start.pending.len() + i + 1,
            ));
            if pending.len() == FRAME_SAMPLES {
                let packet = AudioPacket { seq, samples: pending };
                assert(packet@ == start.frame(samples@, sent as int));
                out.push(packet.serialize());
                seq = if seq == u16::MAX {
                    FIRST_SEQ
                } else {
                    seq + 1
                };
                pending = Vec::new();
                assert(pending@ =~= stream.subrange(
                    out@.len() * FRAME_SAMPLES,
                    start.pending.len() + i + 1,
                ));
            }
            i = i + 1;
        }
        proof {
            assert(out@.len() == start.frames_ready(samples@));
            assert(pending@ =~= stream.skip(out@.len() * FRAME_SAMPLES));
        }
        core::mem::swap(&mut self.pending, &mut pending);
        self.next_seq = seq;
        out
    }
}

} // verus!
