use voip_core::adapter::{feedback_risk, session_mode, wants_capture, SessionMode};
use voip_core::jitter::JitterBuffer;
use voip_core::level::{is_silence, peak_amplitude, sample_magnitude, SILENCE_THRESHOLD};
use voip_core::playback::{fill, fill_u16};

#[test]
fn fill_takes_one_sample_per_slot() {
    let mut jitter = JitterBuffer::new();
    jitter.set_min_delay_ms(0);
    jitter.push_packet(&[1, 2, 3, 4, 5]);
    let mut out = [9i16; 3];
    fill(&mut jitter, &mut out);
    assert_eq!(out, [1, 2, 3]);
    assert_eq!(jitter.len(), 2);
    let mut more = [9i16; 4];
    fill(&mut jitter, &mut more);
    assert_eq!(more, [4, 5, 0, 0]);
    assert!(jitter.is_empty());
}

#[test]
fn fill_gives_silence_while_priming() {
    let mut jitter = JitterBuffer::new();
    jitter.push_packet(&[7; 4799]);
    let mut out = [9i16; 64];
    fill(&mut jitter, &mut out);
    assert_eq!(out, [0i16; 64]);
    assert_eq!(jitter.len(), 4799);
}

#[test]
fn fill_stops_taking_when_the_depth_falls_below_the_delay() {
    let mut jitter = JitterBuffer::new();
    jitter.push_packet(&[7; 4802]);
    let mut out = [9i16; 6];
    fill(&mut jitter, &mut out);
    assert_eq!(out, [7, 7, 7, 0, 0, 0]);
    assert_eq!(jitter.len(), 4799);
}

#[test]
fn fill_of_no_slots_changes_nothing() {
    let mut jitter = JitterBuffer::new();
    jitter.set_min_delay_ms(0);
    jitter.push_packet(&[1]);
    let mut out: [i16; 0] = [];
    fill(&mut jitter, &mut out);
    assert_eq!(jitter.len(), 1);
}

#[test]
fn fill_u16_converts_each_sample() {
    let mut jitter = JitterBuffer::new();
    jitter.set_min_delay_ms(0);
    jitter.push_packet(&[i16::MIN, -1, 0, i16::MAX]);
    let mut out = [1u16; 6];
    fill_u16(&mut jitter, &mut out);
    assert_eq!(out, [0, 32767, 32768, 65535, 32768, 32768]);
}

#[test]
fn peak_is_the_largest_absolute_sample() {
    assert_eq!(peak_amplitude(&[]), 0);
    assert_eq!(peak_amplitude(&[0, 0]), 0);
    assert_eq!(peak_amplitude(&[3, -7, 5]), 7);
    assert_eq!(peak_amplitude(&[i16::MAX, -5]), 32767);
    assert_eq!(peak_amplitude(&[i16::MIN, i16::MAX]), 32768);
    assert_eq!(sample_magnitude(i16::MIN), 32768);
    assert_eq!(sample_magnitude(-1), 1);
    assert_eq!(sample_magnitude(12), 12);
}

#[test]
fn silence_is_a_peak_below_100() {
    assert_eq!(SILENCE_THRESHOLD, 100);
    assert!(is_silence(0));
    assert!(is_silence(99));
    assert!(!is_silence(100));
    assert!(!is_silence(32768));
}

#[test]
fn playback_failure_tears_the_call_down() {
    assert_eq!(session_mode(false, true), SessionMode::TornDown);
    assert_eq!(session_mode(false, false), SessionMode::TornDown);
}

#[test]
fn capture_failure_leaves_a_receive_only_call() {
    assert_eq!(session_mode(true, false), SessionMode::ReceiveOnly);
    assert_eq!(session_mode(true, true), SessionMode::Duplex);
}

#[test]
fn capture_needs_both_devices() {
    assert!(wants_capture(true, true));
    assert!(!wants_capture(true, false));
    assert!(!wants_capture(false, true));
    assert!(!wants_capture(false, false));
}

#[test]
fn same_device_name_is_a_feedback_risk() {
    assert!(feedback_risk("default", "default"));
    assert!(!feedback_risk("Microphone", "Speakers"));
    assert!(!feedback_risk("default", "Default"));
    assert!(feedback_risk("", ""));
}
