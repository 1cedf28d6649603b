//! What the status window shows for a state: a text and a colour for the
//! camera, and a text and a colour for the music.

use vstd::prelude::*;

use crate::status::CameraStatus;

verus! {

/// The colour in which an indicator is drawn.
#[derive(Clone, Copy, Debug, PartialEq, Eq, Structural)]
pub enum Tone {
    Green,
    Red,
    Gray,
    Yellow,
}

/// A text and the colour to draw it in.
pub struct Indicator {
    /// The text to show.
    pub text: &'static str,
    /// Its colour.
    pub tone: Tone,
}

/// The text shown for a camera status.
pub open spec fn camera_text(status: CameraStatus) -> Seq<char> {
    match status {
        CameraStatus::CameraOn => "ON (In Meeting)"@,
        CameraStatus::CameraOff => "OFF"@,
        CameraStatus::Unknown => "Unknown"@,
    }
}

/// The colour of a camera status: green while on, red while off, gray while
/// nothing is known.
pub open spec fn camera_tone(status: CameraStatus) -> Tone {
    match status {
        CameraStatus::CameraOn => Tone::Green,
        CameraStatus::CameraOff => Tone::Red,
        CameraStatus::Unknown => Tone::Gray,
    }
}

/// The text shown for the music.
pub open spec fn music_text(paused: bool) -> Seq<char> {
    if paused {
        "PAUSED"@
    } else {
        "PLAYING"@
    }
}

/// The colour of the music: yellow while paused, green while playing.
pub open spec fn music_tone(paused: bool) -> Tone {
    if paused {
        Tone::Yellow
    } else {
        Tone::Green
    }
}

/// What the window shows for the camera.
pub fn camera_indicator(status: CameraStatus) -> (shown: Indicator)
    ensures
        shown.text@ == camera_text(status),
        shown.tone == camera_tone(status),
{
    match status {
        CameraStatus::CameraOn => Indicator { text: "ON (In Meeting)", tone: Tone::Green },
        CameraStatus::CameraOff => Indicator { text: "OFF", tone: Tone::Red },
        CameraStatus::Unknown => Indicator { text: "Unknown", tone: Tone::Gray },
    }
}

/// What the window shows for the music.
pub fn music_indicator(paused: bool) -> (shown: Indicator)
    ensures
        shown.text@ == music_text(paused),
        shown.tone == music_tone(paused),
{
    if paused {
        Indicator { text: "PAUSED", tone: Tone::Yellow }
    } else {
        Indicator { text: "PLAYING", tone: Tone::Green }
    }
}

} // verus!
