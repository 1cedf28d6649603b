//! The camera status that the monitor tracks.

use vstd::prelude::*;

verus! {

/// What is known about the camera.
#[derive(Clone, Copy, Debug, PartialEq, Eq, Structural)]
pub enum CameraStatus {
    /// No log line has been seen yet.
    Unknown,
    /// The last line showed an application using the camera.
    CameraOn,
    /// The last line showed no application using the camera.
    CameraOff,
}

impl CameraStatus {
    /// The status that one log line stands for: every line says either that
    /// the camera is on or that it is off, never that nothing is known.
    pub open spec fn detected(camera_on: bool) -> CameraStatus {
        if camera_on {
            CameraStatus::CameraOn
        } else {
            CameraStatus::CameraOff
        }
    }

    /// The name under which a status appears in event descriptions.
    pub open spec fn name_spec(self) -> Seq<char> {
        match self {
            CameraStatus::Unknown => "Unknown"@,
            CameraStatus::CameraOn => "CameraOn"@,
            CameraStatus::CameraOff => "CameraOff"@,
        }
    }

    /// Turns the outcome of matching one line into a status.
    pub fn from_detection(camera_on: bool) -> (status: CameraStatus)
        ensures
            status == Self::detected(camera_on),
    {
        if camera_on {
            CameraStatus::CameraOn
        } else {
            CameraStatus::CameraOff
        }
    }

    /// The name of this status, as it is written into event descriptions.
    pub fn name(&self) -> (text: &'static str)
        ensures
            text@ == self.name_spec(),
    {
        match self {
            CameraStatus::Unknown => "Unknown",
            CameraStatus::CameraOn => "CameraOn",
            CameraStatus::CameraOff => "CameraOff",
        }
    }
}

} // verus!
