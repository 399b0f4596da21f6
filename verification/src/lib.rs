//! A desktop power-management helper core: it tracks whether a monitored
//! application is fullscreen or playing audio and decides, tick by tick, when
//! the operating environment's screen blanking must be suppressed or restored.
//!
//! This library holds the decision logic alone: matching window and audio
//! stream listings against an application identifier, the edge-triggered
//! tracking state machine, and the per-tick monitoring step. Launching the
//! application and talking to the platform (window lists, window properties,
//! audio sinks, notifications, display power signaling) happen outside, and
//! hand the library plain values.

use vstd::prelude::*;

pub mod state;
pub mod matching;
pub mod probe;
pub mod machine;
pub mod laws;

verus! {

/// The usage text shown when the command line is malformed.
pub fn help() -> &'static str {
    "
        attention <flag> <app_name>
        Flags:
            --track-audio       Track audio to disable power management
            --track-fullscreen  Track fullscreen to diable power management
    "
}

} // verus!
