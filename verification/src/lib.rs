//! Watches camera-activity log lines and decides when music playback should
//! be paused or resumed.
//!
//! The crate holds the decisions only: which lines mean that the camera is in
//! use, how the tracked state moves from one line to the next, which player
//! command a change calls for, and what the status window shows. Reading the
//! log stream, running the commands and drawing the window is left to the
//! program around it.

pub mod clock;
pub mod commands;
pub mod display;
pub mod monitor;
pub mod pattern;
pub mod state;
pub mod status;
