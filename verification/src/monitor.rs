//! One step of the monitor: from a log line to the new state and the
//! command for the player.

use vstd::prelude::*;

use crate::clock::{is_clock_text, local_time_text};
use crate::pattern::{shows_camera_on, LineClassifier};
use crate::state::{command_for, is_transition, step, AppState, MediaCommand};

verus! {

/// Takes in one line of the log stream. The line is classified; where its
/// status differs from the tracked one, the state changes as `step` says,
/// stamped with the local time of day, and the command for the player is
/// returned. A line that repeats the tracked status leaves the state as it
/// is and returns nothing.
pub fn observe(state: &mut AppState, classifier: &LineClassifier, line: &str) -> (command: Option<
    MediaCommand,
>)
    ensures
        command == command_for(old(state)@, shows_camera_on(line@)),
        !is_transition(old(state)@, shows_camera_on(line@)) ==> final(state)@ == old(state)@,
        is_transition(old(state)@, shows_camera_on(line@)) ==> exists|clock: Seq<char>|
            #[trigger] is_clock_text(clock) && final(state)@ == step(
                old(state)@,
                shows_camera_on(line@),
                clock,
            ),
{
    let camera_on = classifier.is_camera_on(line);
    if state.differs_from(camera_on) {
        let clock = local_time_text("%H:%M:%S");
        state.apply(camera_on, clock.as_str())
    } else {
        None
    }
}

} // verus!
