use voip_core::packet::{AudioPacket, FRAME_SAMPLES, MAX_DATAGRAM};

fn round_trip(seq: u16, samples: Vec<i16>) {
    let packet = AudioPacket { seq, samples: samples.clone() };
    let bytes = packet.serialize();
    assert_eq!(bytes.len(), 2 + 2 * samples.len());
    let back = AudioPacket::deserialize(&bytes).expect("a serialized frame parses");
    assert_eq!(back.seq, seq);
    assert_eq!(back.samples, samples);
}

#[test]
fn serialize_writes_little_endian_bytes() {
    let packet = AudioPacket { seq: 0x1234, samples: vec![1, -2, i16::MIN, i16::MAX, 0x0102] };
    assert_eq!(
        packet.serialize(),
        vec![0x34, 0x12, 0x01, 0x00, 0xFE, 0xFF, 0x00, 0x80, 0xFF, 0x7F, 0x02, 0x01]
    );
}

#[test]
fn deserialize_reads_little_endian_bytes() {
    let packet = AudioPacket::deserialize(&[0xFF, 0xFE, 0x00, 0x80, 0xFF, 0xFF, 0x10, 0x00])
        .expect("eight bytes hold a frame");
    assert_eq!(packet.seq, 0xFEFF);
    assert_eq!(packet.samples, vec![i16::MIN, -1, 16]);
}

#[test]
fn round_trip_small_frames() {
    round_trip(0, vec![]);
    round_trip(1, vec![0]);
    round_trip(65535, vec![i16::MIN, -1, 0, 1, i16::MAX]);
    round_trip(256, vec![255, 256, -255, -256, 0x7F00, -0x7F00]);
}

#[test]
fn round_trip_data_frame() {
    let samples: Vec<i16> = (0..FRAME_SAMPLES).map(|i| (i as i32 * 67 - 30000) as i16).collect();
    let packet = AudioPacket { seq: 42, samples: samples.clone() };
    assert_eq!(packet.serialize().len(), 1922);
    round_trip(42, samples);
}

#[test]
fn round_trip_every_sample_value() {
    let samples: Vec<i16> = (i16::MIN..=i16::MAX).collect();
    round_trip(7, samples);
}

#[test]
fn round_trip_largest_frame_of_a_datagram() {
    let samples: Vec<i16> = (0..2047).map(|i| (i * 16 - 16000) as i16).collect();
    let packet = AudioPacket { seq: 65535, samples: samples.clone() };
    assert_eq!(packet.serialize().len(), MAX_DATAGRAM);
    round_trip(65535, samples);
}

#[test]
fn round_trip_every_sequence_number() {
    for seq in 0..=u16::MAX {
        let bytes = AudioPacket { seq, samples: vec![-3] }.serialize();
        assert_eq!(AudioPacket::deserialize(&bytes).unwrap().seq, seq);
    }
}

#[test]
fn odd_length_drops_the_last_byte() {
    let bytes = [0x05, 0x00, 0x01, 0x00, 0x02, 0x00, 0x99];
    let packet = AudioPacket::deserialize(&bytes).expect("seven bytes hold a frame");
    assert_eq!(packet.seq, 5);
    assert_eq!(packet.samples, vec![1, 2]);

    let three = AudioPacket::deserialize(&[0x09, 0x00, 0x77]).expect("three bytes hold a frame");
    assert_eq!(three.seq, 9);
    assert!(three.samples.is_empty());
}

#[test]
fn odd_length_equals_even_prefix() {
    let mut bytes = AudioPacket { seq: 300, samples: vec![10, -10, 2000] }.serialize();
    let even = AudioPacket::deserialize(&bytes).unwrap();
    bytes.push(0xAB);
    let odd = AudioPacket::deserialize(&bytes).unwrap();
    assert_eq!(odd.seq, even.seq);
    assert_eq!(odd.samples, even.samples);
}

#[test]
fn short_datagrams_are_rejected() {
    assert!(AudioPacket::deserialize(&[]).is_none());
    assert!(AudioPacket::deserialize(&[0x00]).is_none());
    assert!(AudioPacket::deserialize(&[0xFF]).is_none());
}

#[test]
fn two_bytes_hold_a_frame_without_samples() {
    let packet = AudioPacket::deserialize(&[0x00, 0x00]).expect("two bytes hold a frame");
    assert_eq!(packet.seq, 0);
    assert!(packet.samples.is_empty());
}
