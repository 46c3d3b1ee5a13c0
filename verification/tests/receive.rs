use voip_core::addr::IpAddress;
use voip_core::jitter::{JitterBuffer, MAX_SAMPLES};
use voip_core::packet::AudioPacket;
use voip_core::receive::{ReceiveReport, ReceiveState, Received};

const LOCAL: IpAddress = IpAddress::V4(0x0A00_0001);
const PEER: IpAddress = IpAddress::V4(0x0A00_0002);

fn frame(seq: u16, value: i16) -> Vec<u8> {
    AudioPacket { seq, samples: vec![value; 960] }.serialize()
}

fn drain(jitter: &mut JitterBuffer, count: usize) -> Vec<i16> {
    (0..count).map(|_| jitter.pop_sample()).collect()
}

fn runs(samples: &[i16]) -> Vec<(i16, usize)> {
    let mut out: Vec<(i16, usize)> = Vec::new();
    for s in samples {
        match out.last_mut() {
            Some((value, count)) if *value == *s => *count += 1,
            _ => out.push((*s, 1)),
        }
    }
    out
}

#[test]
fn new_state_has_seen_nothing() {
    let state = ReceiveState::new();
    assert_eq!(state.last_seq, 0);
    assert_eq!(state.packet_count, 0);
    assert_eq!(state.lost_packet_count, 0);
    assert_eq!(state.peak, 0);
}

#[test]
fn self_echo_is_dropped() {
    let mut state = ReceiveState::new();
    let mut jitter = JitterBuffer::new();
    let outcome = state.on_datagram(&mut jitter, LOCAL, LOCAL, &frame(1, 500));
    assert_eq!(outcome, Received::SelfEcho);
    assert_eq!(state, ReceiveState::new());
    assert!(jitter.is_empty());

    let ping = state.on_datagram(&mut jitter, LOCAL, LOCAL, &[0, 0]);
    assert_eq!(ping, Received::SelfEcho);
    let short = state.on_datagram(&mut jitter, LOCAL, LOCAL, &[7]);
    assert_eq!(short, Received::SelfEcho);
    assert_eq!(state, ReceiveState::new());
    assert!(jitter.is_empty());
}

#[test]
fn self_echo_is_judged_by_version_and_bits() {
    let mut state = ReceiveState::new();
    let mut jitter = JitterBuffer::new();
    let v6 = IpAddress::V6(0x0A00_0001);
    let outcome = state.on_datagram(&mut jitter, LOCAL, v6, &[0, 0]);
    assert_eq!(outcome, Received::Ping { from: v6 });
    let same = state.on_datagram(&mut jitter, v6, IpAddress::V6(0x0A00_0001), &[0, 0]);
    assert_eq!(same, Received::SelfEcho);
}

#[test]
fn short_datagram_is_malformed() {
    let mut state = ReceiveState::new();
    let mut jitter = JitterBuffer::new();
    assert_eq!(state.on_datagram(&mut jitter, LOCAL, PEER, &[]), Received::Malformed);
    assert_eq!(state.on_datagram(&mut jitter, LOCAL, PEER, &[1]), Received::Malformed);
    assert_eq!(state, ReceiveState::new());
    assert!(jitter.is_empty());
}

#[test]
fn ping_names_its_source_and_changes_nothing() {
    let mut state = ReceiveState::new();
    let mut jitter = JitterBuffer::new();
    let outcome = state.on_datagram(&mut jitter, LOCAL, PEER, &[0, 0]);
    assert_eq!(outcome, Received::Ping { from: PEER });
    assert_eq!(state, ReceiveState::new());
    assert!(jitter.is_empty());

    let with_samples = state.on_datagram(&mut jitter, LOCAL, PEER, &frame(0, 9));
    assert_eq!(with_samples, Received::Ping { from: PEER });
    assert!(jitter.is_empty());
}

#[test]
fn first_frame_is_taken_without_loss() {
    let mut state = ReceiveState::new();
    let mut jitter = JitterBuffer::new();
    let outcome = state.on_datagram(&mut jitter, LOCAL, PEER, &frame(500, -1234));
    assert_eq!(
        outcome,
        Received::Frame { seq: 500, lost: 0, samples: 960, peak: 1234, depth: 960 }
    );
    assert_eq!(state.last_seq, 500);
    assert_eq!(state.packet_count, 1);
    assert_eq!(state.lost_packet_count, 0);
    assert_eq!(state.peak, 1234);
    assert_eq!(jitter.len(), 960);
}

#[test]
fn loss_concealment_fills_the_gap_with_silence() {
    let mut state = ReceiveState::new();
    let mut jitter = JitterBuffer::new();
    jitter.set_min_delay_ms(0);
    let one = state.on_datagram(&mut jitter, LOCAL, PEER, &frame(1, 11));
    let two = state.on_datagram(&mut jitter, LOCAL, PEER, &frame(2, 22));
    let five = state.on_datagram(&mut jitter, LOCAL, PEER, &frame(5, 55));
    assert_eq!(one, Received::Frame { seq: 1, lost: 0, samples: 960, peak: 11, depth: 960 });
    assert_eq!(two, Received::Frame { seq: 2, lost: 0, samples: 960, peak: 22, depth: 1920 });
    assert_eq!(five, Received::Frame { seq: 5, lost: 2, samples: 960, peak: 55, depth: 4800 });
    assert_eq!(jitter.len(), 960 + 960 + 1920 + 960);
    let drained = drain(&mut jitter, 4800);
    assert_eq!(runs(&drained), vec![(11, 960), (22, 960), (0, 1920), (55, 960)]);
    assert_eq!(state.last_seq, 5);
    assert_eq!(state.packet_count, 3);
    assert_eq!(state.lost_packet_count, 2);
    assert_eq!(state.peak, 55);
}

#[test]
fn frames_around_a_gap_are_queued_with_silence_between() {
    let v: i16 = 321;
    let mut state = ReceiveState::new();
    let mut jitter = JitterBuffer::new();
    assert_eq!(drain(&mut jitter, 100), vec![0; 100]);
    for seq in [1u16, 2, 3, 7] {
        state.on_datagram(&mut jitter, LOCAL, PEER, &frame(seq, v));
    }
    assert_eq!(jitter.len(), 3 * 960 + 3 * 960 + 960);
    assert_eq!(state.lost_packet_count, 3);
    jitter.set_min_delay_ms(0);
    let drained = drain(&mut jitter, 7 * 960 + 10);
    assert_eq!(runs(&drained), vec![(v, 2880), (0, 2880), (v, 960), (0, 10)]);
}

#[test]
fn draining_after_a_gap_stops_at_the_minimum_delay() {
    let v: i16 = 321;
    let mut state = ReceiveState::new();
    let mut jitter = JitterBuffer::new();
    for seq in [1u16, 2, 3] {
        state.on_datagram(&mut jitter, LOCAL, PEER, &frame(seq, v));
        assert_eq!(jitter.pop_sample(), 0);
    }
    state.on_datagram(&mut jitter, LOCAL, PEER, &frame(7, v));
    let drained = drain(&mut jitter, 4000);
    assert_eq!(runs(&drained), vec![(v, 6720 - 4800 + 1), (0, 4000 - 1921)]);
    assert_eq!(jitter.len(), 4799);
}

#[test]
fn late_and_repeated_frames_are_dropped() {
    let mut state = ReceiveState::new();
    let mut jitter = JitterBuffer::new();
    state.on_datagram(&mut jitter, LOCAL, PEER, &frame(10, 5));
    let before = state;
    assert_eq!(
        state.on_datagram(&mut jitter, LOCAL, PEER, &frame(10, 6)),
        Received::Stale { seq: 10 }
    );
    assert_eq!(
        state.on_datagram(&mut jitter, LOCAL, PEER, &frame(9, 6)),
        Received::Stale { seq: 9 }
    );
    assert_eq!(state, before);
    assert_eq!(jitter.len(), 960);
}

#[test]
fn wrap_of_the_sequence_number_is_taken() {
    let mut state = ReceiveState::new();
    let mut jitter = JitterBuffer::new();
    state.on_datagram(&mut jitter, LOCAL, PEER, &frame(65534, 5));
    let last = state.on_datagram(&mut jitter, LOCAL, PEER, &frame(65535, 5));
    assert_eq!(last, Received::Frame { seq: 65535, lost: 0, samples: 960, peak: 5, depth: 1920 });
    let wrapped = state.on_datagram(&mut jitter, LOCAL, PEER, &frame(1, 5));
    assert_eq!(wrapped, Received::Frame { seq: 1, lost: 0, samples: 960, peak: 5, depth: 2880 });
    assert_eq!(state.last_seq, 1);
    let next = state.on_datagram(&mut jitter, LOCAL, PEER, &frame(2, 5));
    assert_eq!(next, Received::Frame { seq: 2, lost: 0, samples: 960, peak: 5, depth: 3840 });
}

#[test]
fn regression_at_the_wrap_distance_is_a_wrap() {
    let mut state = ReceiveState::new();
    let mut jitter = JitterBuffer::new();
    state.on_datagram(&mut jitter, LOCAL, PEER, &frame(40000, 5));
    assert_eq!(
        state.on_datagram(&mut jitter, LOCAL, PEER, &frame(40000 - 32767, 5)),
        Received::Stale { seq: 40000 - 32767 }
    );
    let wrapped = state.on_datagram(&mut jitter, LOCAL, PEER, &frame(40000 - 32768, 5));
    assert_eq!(
        wrapped,
        Received::Frame { seq: 7232, lost: 0, samples: 960, peak: 5, depth: 1920 }
    );
}

#[test]
fn longest_gap_is_concealed_within_the_bound() {
    let mut state = ReceiveState::new();
    let mut jitter = JitterBuffer::new();
    state.on_datagram(&mut jitter, LOCAL, PEER, &frame(1, 5));
    let outcome = state.on_datagram(&mut jitter, LOCAL, PEER, &frame(65535, 8));
    assert_eq!(
        outcome,
        Received::Frame { seq: 65535, lost: 65533, samples: 960, peak: 8, depth: MAX_SAMPLES }
    );
    assert_eq!(state.lost_packet_count, 65533);
    let drained = drain(&mut jitter, MAX_SAMPLES - 4800 + 1);
    assert_eq!(runs(&drained), vec![(0, MAX_SAMPLES - 4800 + 1)]);
}

#[test]
fn frames_of_other_sizes_are_taken_as_they_are() {
    let mut state = ReceiveState::new();
    let mut jitter = JitterBuffer::new();
    let bytes = AudioPacket { seq: 3, samples: vec![i16::MIN, 4] }.serialize();
    let outcome = state.on_datagram(&mut jitter, LOCAL, PEER, &bytes);
    assert_eq!(outcome, Received::Frame { seq: 3, lost: 0, samples: 2, peak: 32768, depth: 2 });
    let empty = state.on_datagram(&mut jitter, LOCAL, PEER, &[4, 0, 9]);
    assert_eq!(empty, Received::Frame { seq: 4, lost: 0, samples: 0, peak: 0, depth: 2 });
    assert_eq!(state.peak, 32768);
}

#[test]
fn counters_stop_at_their_largest_value() {
    let mut state = ReceiveState { last_seq: 1, packet_count: u64::MAX, lost_packet_count: u64::MAX - 1, peak: 0 };
    let mut jitter = JitterBuffer::new();
    state.on_datagram(&mut jitter, LOCAL, PEER, &frame(5, 1));
    assert_eq!(state.packet_count, u64::MAX);
    assert_eq!(state.lost_packet_count, u64::MAX);
}

#[test]
fn report_hands_out_and_resets_the_counters() {
    let mut state = ReceiveState::new();
    let mut jitter = JitterBuffer::new();
    state.on_datagram(&mut jitter, LOCAL, PEER, &frame(1, 300));
    state.on_datagram(&mut jitter, LOCAL, PEER, &frame(4, -20));
    let report = state.take_report(&jitter);
    assert_eq!(
        report,
        ReceiveReport { packets: 2, lost: 2, peak: 300, last_seq: 4, depth: 3840 }
    );
    assert_eq!(report.loss_permille(), 500);
    assert!(!report.is_silence());
    assert_eq!(
        state,
        ReceiveState { last_seq: 4, packet_count: 0, lost_packet_count: 0, peak: 0 }
    );
    let idle = state.take_report(&jitter);
    assert_eq!(idle.loss_permille(), 0);
    assert!(idle.is_silence());
}

#[test]
fn loss_rate_is_in_tenths_of_a_percent() {
    let report = |packets: u64, lost: u64| ReceiveReport { packets, lost, peak: 0, last_seq: 0, depth: 0 };
    assert_eq!(report(0, 0).loss_permille(), 0);
    assert_eq!(report(0, 5).loss_permille(), 0);
    assert_eq!(report(50, 0).loss_permille(), 0);
    assert_eq!(report(2, 1).loss_permille(), 333);
    assert_eq!(report(1, 2).loss_permille(), 666);
    assert_eq!(report(999, 1).loss_permille(), 1);
    assert_eq!(report(1, u64::MAX).loss_permille(), 999);
    assert_eq!(report(u64::MAX, u64::MAX).loss_permille(), 500);
}
