//! Audio device adapter: what a call does when a capture or playback stream
//! cannot be opened, and the warning for a device that is both.

use crate::text::same_text;
use vstd::prelude::*;

verus! {

/// How a call runs, given which streams opened.
#[derive(Clone, Copy, Debug, PartialEq, Eq, Structural)]
pub enum SessionMode {
    /// Capture and playback both run.
    Duplex,
    /// Playback runs without capture: the call only receives.
    ReceiveOnly,
    /// Playback could not be opened: the call is torn down, and a capture
    /// stream that did open is closed again.
    TornDown,
}

/// How a call runs when playback opened or not, and capture opened or not.
pub open spec fn mode_of(playback_open: bool, capture_open: bool) -> SessionMode {
    if !playback_open {
        SessionMode::TornDown
    } else if capture_open {
        SessionMode::Duplex
    } else {
        SessionMode::ReceiveOnly
    }
}

/// Decides how a call runs from which streams opened.
pub fn session_mode(playback_open: bool, capture_open: bool) -> (mode: SessionMode)
    ensures
        mode == mode_of(playback_open, capture_open),
{
    if !playback_open {
        SessionMode::TornDown
    } else if capture_open {
        SessionMode::Duplex
    } else {
        SessionMode::ReceiveOnly
    }
}

/// Whether a capture stream is to be opened at all: only where the host has
/// a playback device and a capture device.
pub fn wants_capture(playback_present: bool, capture_present: bool) -> (open: bool)
    ensures
        open == (playback_present && capture_present),
{
    playback_present && capture_present
}

/// Whether the capture and the playback device have the same name, which
/// may feed the speaker back into the microphone. It only calls for a
/// warning.
pub fn feedback_risk(capture_name: &str, playback_name: &str) -> (risk: bool)
    ensures
        risk == (capture_name@ == playback_name@),
{
    same_text(capture_name, playback_name)
}

/// A call without playback is torn down whatever capture did; a call without
/// capture still receives.
pub proof fn lemma_modes(capture_open: bool)
    ensures
        mode_of(false, capture_open) == SessionMode::TornDown,
        mode_of(true, false) == SessionMode::ReceiveOnly,
        mode_of(true, true) == SessionMode::Duplex,
{
}

} // verus!
