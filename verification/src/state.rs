//! The state that the monitor keeps, and how one log line changes it.
//!
//! Three values move together: the camera status, whether playback was
//! paused, and the description of the last event. A line that repeats the
//! current status changes none of them; a line that differs from it changes
//! all three at once and calls for one player command.

use vstd::prelude::*;
use vstd::string::*;

use crate::status::CameraStatus;

verus! {

/// What the media player is told to do.
#[derive(Clone, Copy, Debug, PartialEq, Eq, Structural)]
pub enum MediaCommand {
    /// Stop playback: the camera came on.
    Pause,
    /// Take playback up again: the camera went off.
    Resume,
}

/// The monitor's state as plain values.
#[verifier::ext_equal]
pub struct StateView {
    /// The status that the last line stood for.
    pub camera: CameraStatus,
    /// Whether the last command sent to the player was a pause.
    pub paused: bool,
    /// The description of the last change.
    pub last_event: Seq<char>,
}

/// The description shown before any event.
pub open spec fn waiting_text() -> Seq<char> {
    "Waiting for camera events..."@
}

/// The words between the status and the time in an event description.
pub open spec fn detected_at() -> Seq<char> {
    " detected at "@
}

/// The description of a change to `status` at the time `clock`.
pub open spec fn event_text(status: CameraStatus, clock: Seq<char>) -> Seq<char> {
    status.name_spec() + detected_at() + clock
}

/// The state before any line was seen.
pub open spec fn initial_view() -> StateView {
    StateView { camera: CameraStatus::Unknown, paused: false, last_event: waiting_text() }
}

/// Whether a line with the given outcome changes the state. The unknown
/// status differs from both outcomes, so the first line always does.
pub open spec fn is_transition(state: StateView, camera_on: bool) -> bool {
    state.camera != CameraStatus::detected(camera_on)
}

/// The state after a line with the given outcome, seen at the time `clock`.
pub open spec fn step(state: StateView, camera_on: bool, clock: Seq<char>) -> StateView {
    if is_transition(state, camera_on) {
        StateView {
            camera: CameraStatus::detected(camera_on),
            paused: camera_on,
            last_event: event_text(CameraStatus::detected(camera_on), clock),
        }
    } else {
        state
    }
}

/// The command that a line with the given outcome calls for, if any.
pub open spec fn command_for(state: StateView, camera_on: bool) -> Option<MediaCommand> {
    if !is_transition(state, camera_on) {
        None
    } else if camera_on {
        Some(MediaCommand::Pause)
    } else {
        Some(MediaCommand::Resume)
    }
}

/// The three values agree: playback is paused exactly while the camera is
/// on, and the description is that of the change that led to the status, or
/// the waiting text while nothing is known.
pub open spec fn coherent(state: StateView) -> bool {
    &&& state.paused == (state.camera == CameraStatus::CameraOn)
    &&& if state.camera == CameraStatus::Unknown {
        state.last_event == waiting_text()
    } else {
        exists|clock: Seq<char>| state.last_event == #[trigger] event_text(state.camera, clock)
    }
}

/// The monitor's state.
pub struct AppState {
    camera_status: CameraStatus,
    is_paused: bool,
    last_event: String,
}

impl View for AppState {
    type V = StateView;

    closed spec fn view(&self) -> StateView {
        StateView {
            camera: self.camera_status,
            paused: self.is_paused,
            last_event: self.last_event@,
        }
    }
}

impl AppState {
    /// Every state that exists is coherent.
    #[verifier::type_invariant]
    spec fn well_formed(self) -> bool {
        coherent(self@)
    }

    /// The state at start: status unknown, playback running, no event yet.
    pub fn new() -> (state: AppState)
        ensures
            state@ == initial_view(),
    {
        AppState {
            camera_status: CameraStatus::Unknown,
            is_paused: false,
            last_event: String::from_str("Waiting for camera events..."),
        }
    }

    /// The tracked camera status.
    pub fn camera_status(&self) -> (status: CameraStatus)
        ensures
            status == self@.camera,
    {
        self.camera_status
    }

    /// Whether the last command sent to the player was a pause. That is so
    /// exactly while the camera is on.
    pub fn is_paused(&self) -> (paused: bool)
        ensures
            paused == self@.paused,
            paused == (self@.camera == CameraStatus::CameraOn),
    {
        proof {
            use_type_invariant(self);
        }
        self.is_paused
    }

    /// The description of the last change.
    pub fn last_event(&self) -> (text: &str)
        ensures
            text@ == self@.last_event,
            coherent(self@),
    {
        proof {
            use_type_invariant(self);
        }
        self.last_event.as_str()
    }

    /// Whether a line with the given outcome would change the state.
    pub fn differs_from(&self, camera_on: bool) -> (changed: bool)
        ensures
            changed == is_transition(self@, camera_on),
    {
        self.camera_status != CameraStatus::from_detection(camera_on)
    }

    /// Takes in one line's outcome, seen at the time `clock`. Where the
    /// outcome repeats the tracked status nothing changes and no command is
    /// returned. Otherwise status, playback flag and description change
    /// together, and the command for the player is returned: a pause when
    /// the camera came on, a resume when it went off.
    pub fn apply(&mut self, camera_on: bool, clock: &str) -> (command: Option<MediaCommand>)
        ensures
            final(self)@ == step(old(self)@, camera_on, clock@),
            command == command_for(old(self)@, camera_on),
    {
        let detected = CameraStatus::from_detection(camera_on);
        if self.camera_status == detected {
            return None;
        }
        let mut description = String::from_str(detected.name());
        description.append(" detected at ");
        description.append(clock);
        assert(description@ == event_text(detected, clock@));
        *self = AppState { camera_status: detected, is_paused: camera_on, last_event: description };
        if camera_on {
            Some(MediaCommand::Pause)
        } else {
            Some(MediaCommand::Resume)
        }
    }
}

/// The state after the lines `seen`, oldest first, each given by its outcome
/// and the time at which it was seen.
pub open spec fn run(start: StateView, seen: Seq<(bool, Seq<char>)>) -> StateView
    decreases seen.len(),
{
    if seen.len() == 0 {
        start
    } else {
        step(run(start, seen.drop_last()), seen.last().0, seen.last().1)
    }
}

/// After any lines at all, the tracked status is the one that the most
/// recent line stood for, whatever the state was before them.
pub proof fn lemma_status_follows_last_line(start: StateView, seen: Seq<(bool, Seq<char>)>)
    requires
        seen.len() > 0,
    ensures
        run(start, seen).camera == CameraStatus::detected(seen.last().0),
{
}

/// From the start, the status is unknown exactly as long as no line has
/// been seen.
pub proof fn lemma_unknown_only_before_first_line(seen: Seq<(bool, Seq<char>)>)
    ensures
        run(initial_view(), seen).camera == CameraStatus::Unknown <==> seen.len() == 0,
{
}

/// The three values stay in agreement over every line: from a coherent
/// state only coherent states are reached.
pub proof fn lemma_run_keeps_coherence(start: StateView, seen: Seq<(bool, Seq<char>)>)
    requires
        coherent(start),
    ensures
        coherent(run(start, seen)),
    decreases seen.len(),
{
    if seen.len() > 0 {
        lemma_run_keeps_coherence(start, seen.drop_last());
        let before = run(start, seen.drop_last());
        let after = run(start, seen);
        if is_transition(before, seen.last().0) {
            assert(after.last_event == event_text(after.camera, seen.last().1));
        }
    }
}

/// A line that classifies as the line before it did is a no-op: it leaves
/// status, playback flag and description as they were and calls for no
/// command.
pub proof fn lemma_repeated_outcome_is_noop(
    state: StateView,
    camera_on: bool,
    first_clock: Seq<char>,
    second_clock: Seq<char>,
)
    ensures
        step(step(state, camera_on, first_clock), camera_on, second_clock) == step(
            state,
            camera_on,
            first_clock,
        ),
        command_for(step(state, camera_on, first_clock), camera_on) is None,
{
}

/// A camera-on line that follows a camera-off line, or that is the first
/// line, calls for one pause and marks playback as paused.
pub proof fn lemma_camera_on_pauses(state: StateView, clock: Seq<char>)
    requires
        state.camera != CameraStatus::CameraOn,
    ensures
        command_for(state, true) == Some(MediaCommand::Pause),
        step(state, true, clock).camera == CameraStatus::CameraOn,
        step(state, true, clock).paused,
        step(state, true, clock).last_event == event_text(CameraStatus::CameraOn, clock),
{
}

/// A camera-off line that follows a camera-on line, or that is the first
/// line, calls for one resume and marks playback as running.
pub proof fn lemma_camera_off_resumes(state: StateView, clock: Seq<char>)
    requires
        state.camera != CameraStatus::CameraOff,
    ensures
        command_for(state, false) == Some(MediaCommand::Resume),
        step(state, false, clock).camera == CameraStatus::CameraOff,
        !step(state, false, clock).paused,
        step(state, false, clock).last_event == event_text(CameraStatus::CameraOff, clock),
{
}

} // verus!
