//! The three tracked state flags and the bundle that holds them.

use vstd::prelude::*;

verus! {

/// Whether the operating environment's display power management is currently
/// suppressed (`Off`) or running normally (`On`).
#[derive(Clone, Copy, Debug, PartialEq, Eq, Structural)]
pub enum ScreenBlankingState {
    Off,
    On,
}

/// The last-observed fullscreen status of the monitored window.
#[derive(Clone, Copy, Debug, PartialEq, Eq, Structural)]
pub enum FullscreenState {
    NotFullscreen,
    Fullscreen,
}

/// The last-observed "is producing audible, unpaused output" status of the
/// monitored application.
#[derive(Clone, Copy, Debug, PartialEq, Eq, Structural)]
pub enum TrackAudioState {
    On,
    Off,
}

/// The state bundle threaded through the poll loop: one prior observation per
/// tracked signal, plus the current screen-blanking status.
#[derive(Clone, Copy, Debug, PartialEq, Eq, Structural)]
pub struct State {
    pub screen_blanking: ScreenBlankingState,
    pub fullscreen: FullscreenState,
    pub track_audio: TrackAudioState,
}

/// The state every run starts from: normal power management, nothing special
/// observed yet.
pub open spec fn initial_state() -> State {
    State {
        screen_blanking: ScreenBlankingState::On,
        fullscreen: FullscreenState::NotFullscreen,
        track_audio: TrackAudioState::Off,
    }
}

impl State {
    /// Creates the startup state: blanking on, not fullscreen, no audio.
    pub fn new() -> (s: Self)
        ensures
            s == initial_state(),
            s.screen_blanking == ScreenBlankingState::On,
            s.fullscreen == FullscreenState::NotFullscreen,
            s.track_audio == TrackAudioState::Off,
    {
        Self {
            screen_blanking: ScreenBlankingState::On,
            fullscreen: FullscreenState::NotFullscreen,
            track_audio: TrackAudioState::Off,
        }
    }
}

} // verus!
