//! The command lines that the program around the monitor runs: the log
//! stream that it reads, and the script calls that carry out a player
//! command.

use vstd::prelude::*;

use crate::state::MediaCommand;

verus! {

/// A program and the arguments to start it with.
pub struct CommandLine {
    /// The name of the program.
    pub program: &'static str,
    /// Its arguments, in order.
    pub arguments: Vec<&'static str>,
}

/// A command line as plain values.
pub struct CommandLineView {
    /// The name of the program.
    pub program: Seq<char>,
    /// Its arguments, in order.
    pub arguments: Seq<Seq<char>>,
}

impl View for CommandLine {
    type V = CommandLineView;

    open spec fn view(&self) -> CommandLineView {
        CommandLineView { program: self.program@, arguments: self.arguments.deep_view() }
    }
}

/// The filter of the log stream: only messages about a change of the
/// cameras in use come through.
pub open spec fn stream_predicate() -> Seq<char> {
    "eventMessage contains \"Cameras changed to\""@
}

/// The command line of the log stream.
pub open spec fn log_stream_line() -> CommandLineView {
    CommandLineView {
        program: "log"@,
        arguments: seq!["stream"@, "--predicate"@, stream_predicate()],
    }
}

/// The script that tells the player what to do.
pub open spec fn player_script(command: MediaCommand) -> Seq<char> {
    match command {
        MediaCommand::Pause => "tell application \"Spotify\" to pause"@,
        MediaCommand::Resume => "tell application \"Spotify\" to play"@,
    }
}

/// The command line that carries out a player command.
pub open spec fn player_line(command: MediaCommand) -> CommandLineView {
    CommandLineView { program: "osascript"@, arguments: seq!["-e"@, player_script(command)] }
}

/// The command line that starts the log stream to read from.
pub fn log_stream_command() -> (line: CommandLine)
    ensures
        line@ == log_stream_line(),
{
    let arguments = vec!["stream", "--predicate", "eventMessage contains \"Cameras changed to\""];
    let line = CommandLine { program: "log", arguments };
    assert(line.arguments.deep_view() =~= log_stream_line().arguments);
    line
}

impl MediaCommand {
    /// The command line that carries out this command: a one-line script
    /// that tells the player to pause or to play.
    pub fn command_line(&self) -> (line: CommandLine)
        ensures
            line@ == player_line(*self),
    {
        let script = match self {
            MediaCommand::Pause => "tell application \"Spotify\" to pause",
            MediaCommand::Resume => "tell application \"Spotify\" to play",
        };
        let arguments = vec!["-e", script];
        let line = CommandLine { program: "osascript", arguments };
        assert(line.arguments.deep_view() =~= player_line(*self).arguments);
        line
    }
}

} // verus!
