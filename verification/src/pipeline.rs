//! The path of the samples from capture to playback: what the capture path
//! sends is what the receive path of the peer queues, in capture order.

use crate::addr::IpAddress;
use crate::capture::{lemma_seq_advance, seq_advance, seq_after, FramerView};
use crate::jitter::{lemma_push_push, silence, JitterView, MAX_SAMPLES};
use crate::packet::{lemma_round_trip, wire_bytes, FRAME_SAMPLES, PING_SEQ};
use crate::receive::{frames_lost, is_stale, receive_step, ReceiveState};
use vstd::prelude::*;

verus! {

/// The receive path at some point: its state and the jitter buffer.
pub struct ReceiveEnd {
    pub state: ReceiveState,
    pub jitter: JitterView,
}

/// The receive path after the datagrams `datagrams` have come in, in their
/// order, all from `source`.
pub open spec fn receive_all(
    start: ReceiveEnd,
    local_ip: IpAddress,
    source: IpAddress,
    datagrams: Seq<Seq<u8>>,
) -> ReceiveEnd
    decreases datagrams.len(),
{
    if datagrams.len() == 0 {
        start
    } else {
        let before = receive_all(start, local_ip, source, datagrams.drop_last());
        let step = receive_step(before.state, before.jitter, local_ip, source, datagrams.last());
        ReceiveEnd { state: step.state, jitter: step.jitter }
    }
}

/// Whether a receiver in the state `state` is in step with a sender whose
/// next frame has the number `next_seq`: it has taken no frame yet, or the
/// last one it took is the one before.
pub open spec fn in_step(state: ReceiveState, next_seq: u16) -> bool {
    state.last_seq == 0 || seq_after(state.last_seq) == next_seq
}

/// A frame from a sender in step is taken, and nothing is found missing
/// before it, also where the sender's counter has just wrapped.
pub proof fn lemma_next_frame_taken(last_seq: u16, seq: u16)
    requires
        seq != PING_SEQ,
        last_seq == 0 || seq_after(last_seq) == seq,
    ensures
        !is_stale(last_seq, seq),
        frames_lost(last_seq, seq) == 0,
{
}

/// Ordering from capture to playback: when the datagrams that a capture
/// sends for `samples` reach the peer in order and none is lost, the peer's
/// jitter buffer is left as one push of the captured samples that filled
/// whole frames leaves it, in capture order, and the peer stays in step.
pub proof fn lemma_capture_reaches_playback(
    framer: FramerView,
    samples: Seq<i16>,
    start: ReceiveEnd,
    local_ip: IpAddress,
    source: IpAddress,
)
    requires
        framer.next_seq != PING_SEQ,
        source != local_ip,
        in_step(start.state, framer.next_seq),
        start.jitter.samples.len() <= MAX_SAMPLES,
    ensures
        ({
            let sent = framer.frames_ready(samples);
            let end = receive_all(start, local_ip, source, framer.datagrams(samples));
            &&& end.jitter == start.jitter.push(
                framer.stream(samples).take(sent * FRAME_SAMPLES as nat as int),
            )
            &&& sent > 0 ==> end.state.last_seq == seq_advance(
                framer.next_seq,
                (sent - 1) as nat,
            )
            &&& in_step(end.state, framer.feed(samples).next_seq)
        }),
{
    lemma_frames_reach(framer, samples, start, local_ip, source, framer.frames_ready(samples));
    assert(framer.datagrams(samples).take(framer.frames_ready(samples) as int)
        =~= framer.datagrams(samples));
}

/// The first `count` datagrams of a capture leave the peer's jitter buffer
/// as one push of the samples of the first `count` frames leaves it.
proof fn lemma_frames_reach(
    framer: FramerView,
    samples: Seq<i16>,
    start: ReceiveEnd,
    local_ip: IpAddress,
    source: IpAddress,
    count: nat,
)
    requires
        framer.next_seq != PING_SEQ,
        source != local_ip,
        in_step(start.state, framer.next_seq),
        start.jitter.samples.len() <= MAX_SAMPLES,
        count <= framer.frames_ready(samples),
    ensures
        ({
            let end = receive_all(
                start,
                local_ip,
                source,
                framer.datagrams(samples).take(count as int),
            );
            &&& end.jitter == start.jitter.push(
                framer.stream(samples).take(count * FRAME_SAMPLES as nat as int),
            )
            &&& count > 0 ==> end.state.last_seq == seq_advance(
                framer.next_seq,
                (count - 1) as nat,
            )
            &&& in_step(end.state, seq_advance(framer.next_seq, count))
        }),
    decreases count,
{
    let stream = framer.stream(samples);
    let all = framer.datagrams(samples);
    if count == 0 {
        assert(stream.take(0) =~= Seq::<i16>::empty());
        assert(all.take(0) =~= Seq::<Seq<u8>>::empty());
        lemma_push_nothing(start.jitter);
    } else {
        let done = (count - 1) as nat;
        lemma_frames_reach(framer, samples, start, local_ip, source, done);
        let sent = all.take(count as int);
        assert(sent.drop_last() =~= all.take(done as int));
        let before = receive_all(start, local_ip, source, all.take(done as int));
        let frame = framer.frame(samples, done as int);
        assert(sent.last() == wire_bytes(frame));
        lemma_round_trip(frame);
        lemma_seq_advance(framer.next_seq, done);
        lemma_next_frame_taken(before.state.last_seq, frame.seq);
        let step = receive_step(before.state, before.jitter, local_ip, source, sent.last());
        assert(step.outcome is Frame);
        lemma_push_push(before.jitter, silence(0), frame.samples);
        assert(silence(0) + frame.samples =~= frame.samples);
        lemma_push_push(
            start.jitter,
            stream.take(done * FRAME_SAMPLES as nat as int),
            frame.samples,
        );
        assert(stream.take(done * FRAME_SAMPLES as nat as int) + frame.samples =~= stream.take(
            count * FRAME_SAMPLES as nat as int,
        ));
    }
}

/// A push of no samples leaves a bounded buffer as it is.
proof fn lemma_push_nothing(v: JitterView)
    ensures
        v.samples.len() <= MAX_SAMPLES ==> v.push(Seq::empty()) == v,
{
    assert(v.samples + Seq::<i16>::empty() =~= v.samples);
}

} // verus!
