//! The edge-triggered tracking state machine and the actuator decisions.
//!
//! Exactly one tracking mode is active per run: either the monitored window's
//! fullscreen status or the application's audio output drives screen
//! blanking. Each poll tick feeds one fresh boolean sample into the machine;
//! the machine acts only when the sample differs from the stored prior
//! observation, never on repeated observation of the same value. Every state
//! change of `screen_blanking` is reported to the caller as a
//! [`BlankingAction`], which the caller performs against the platform (user
//! notification plus display power-management toggle); a tick whose sample
//! repeats the prior observation performs zero side effects.

use vstd::prelude::*;
use crate::state::FullscreenState;
use crate::state::ScreenBlankingState;
use crate::state::State;
use crate::state::TrackAudioState;

verus! {

/// A side effect the caller must perform against the platform: each value
/// stands for one user notification plus one display power-management toggle.
#[derive(Clone, Copy, Debug, PartialEq, Eq, Structural)]
pub enum BlankingAction {
    /// Disable display power-management signaling and announce which
    /// application inhibits it.
    Suppress,
    /// Re-enable display power-management signaling and announce that power
    /// management is back to normal.
    Restore,
}

/// Which of the two monitored conditions drives screen blanking in this run.
#[derive(Clone, Copy, Debug, PartialEq, Eq, Structural)]
pub enum TrackingMode {
    Fullscreen,
    Audio,
}

/// What one monitoring tick decided.
#[derive(Clone, Copy, Debug, PartialEq, Eq)]
pub enum TickDecision {
    /// The monitored window is gone: blanking has been forced back on and the
    /// loop must terminate. `restore_effective` says whether the forced
    /// restore actually changed `screen_blanking` (and so whether the caller
    /// must notify and toggle) or was a no-op.
    ShutDown { restore_effective: bool },
    /// The window is still there: keep polling, after performing the action,
    /// if any.
    Continue { action: Option<BlankingAction> },
}

/// Screen blanking after a suppress request: always off; the request only
/// acts (and only notifies) when blanking was still on.
pub open spec fn suppress_effective(s: State) -> bool {
    s.screen_blanking == ScreenBlankingState::On
}

/// A restore request acts (and notifies) only when blanking was off.
pub open spec fn restore_effective(s: State) -> bool {
    s.screen_blanking == ScreenBlankingState::Off
}

/// The fullscreen status stored in the state, as the boolean the samples use.
pub open spec fn fullscreen_observed(s: State) -> bool {
    s.fullscreen == FullscreenState::Fullscreen
}

/// The audio status stored in the state, as the boolean the samples use.
pub open spec fn audio_observed(s: State) -> bool {
    s.track_audio == TrackAudioState::On
}

/// The state after one fullscreen-tracking tick on a fresh sample: the stored
/// fullscreen status becomes the sample, and on an edge (sample differs from
/// the stored status) blanking is suppressed or restored accordingly. Without
/// an edge nothing changes.
pub open spec fn fullscreen_next(s: State, sample: bool) -> State {
    if sample == fullscreen_observed(s) {
        s
    } else {
        State {
            screen_blanking: if sample {
                ScreenBlankingState::Off
            } else {
                ScreenBlankingState::On
            },
            fullscreen: if sample {
                FullscreenState::Fullscreen
            } else {
                FullscreenState::NotFullscreen
            },
            track_audio: s.track_audio,
        }
    }
}

/// The side effect of one fullscreen-tracking tick: an action exactly when an
/// edge fires and the suppress or restore it triggers actually changes
/// `screen_blanking`.
pub open spec fn fullscreen_action(s: State, sample: bool) -> Option<BlankingAction> {
    if sample && !fullscreen_observed(s) && suppress_effective(s) {
        Some(BlankingAction::Suppress)
    } else if !sample && fullscreen_observed(s) && restore_effective(s) {
        Some(BlankingAction::Restore)
    } else {
        None
    }
}

/// The state after one audio-tracking tick; the exact counterpart of
/// [`fullscreen_next`] on the stored audio status.
pub open spec fn audio_next(s: State, sample: bool) -> State {
    if sample == audio_observed(s) {
        s
    } else {
        State {
            screen_blanking: if sample {
                ScreenBlankingState::Off
            } else {
                ScreenBlankingState::On
            },
            fullscreen: s.fullscreen,
            track_audio: if sample {
                TrackAudioState::On
            } else {
                TrackAudioState::Off
            },
        }
    }
}

/// The side effect of one audio-tracking tick; the exact counterpart of
/// [`fullscreen_action`].
pub open spec fn audio_action(s: State, sample: bool) -> Option<BlankingAction> {
    if sample && !audio_observed(s) && suppress_effective(s) {
        Some(BlankingAction::Suppress)
    } else if !sample && audio_observed(s) && restore_effective(s) {
        Some(BlankingAction::Restore)
    } else {
        None
    }
}

/// Turns screen blanking off in the state. Returns whether the call was
/// effective: `true` exactly when blanking was still on, in which case the
/// caller must send the "power management inhibited" notification and disable
/// display power-management signaling. When blanking was already off this is
/// a no-op: no notification, no platform call.
pub fn suppress_blanking(state: &mut State) -> (effective: bool)
    ensures
        effective == suppress_effective(*old(state)),
        final(state).screen_blanking == ScreenBlankingState::Off,
        final(state).fullscreen == old(state).fullscreen,
        final(state).track_audio == old(state).track_audio,
        effective == (final(state).screen_blanking != old(state).screen_blanking),
{
    if state.screen_blanking == ScreenBlankingState::On {
        state.screen_blanking = ScreenBlankingState::Off;
        true
    } else {
        false
    }
}

/// Turns screen blanking back on in the state. Returns whether the call was
/// effective: `true` exactly when blanking was off, in which case the caller
/// must send the "back to normal" notification and re-enable display
/// power-management signaling. When blanking was already on this is a no-op.
pub fn restore_blanking(state: &mut State) -> (effective: bool)
    ensures
        effective == restore_effective(*old(state)),
        final(state).screen_blanking == ScreenBlankingState::On,
        final(state).fullscreen == old(state).fullscreen,
        final(state).track_audio == old(state).track_audio,
        effective == (final(state).screen_blanking != old(state).screen_blanking),
{
    if state.screen_blanking == ScreenBlankingState::Off {
        state.screen_blanking = ScreenBlankingState::On;
        true
    } else {
        false
    }
}

/// One fullscreen-tracking tick on a fresh sample of the window's fullscreen
/// status. Acts only on an edge: when the sample differs from the stored
/// status, the stored status follows the sample and blanking is suppressed or
/// restored. The returned action is `Some` exactly when `screen_blanking`
/// changed, and names the side effect the caller must perform.
pub fn evaluate_fullscreen_tracking(sample: bool, state: &mut State) -> (action: Option<
    BlankingAction,
>)
    ensures
        *final(state) == fullscreen_next(*old(state), sample),
        action == fullscreen_action(*old(state), sample),
        action is Some <==> final(state).screen_blanking != old(state).screen_blanking,
        final(state).track_audio == old(state).track_audio,
{
    if sample {
        if state.fullscreen == FullscreenState::NotFullscreen {
            state.fullscreen = FullscreenState::Fullscreen;
            if suppress_blanking(state) {
                return Some(BlankingAction::Suppress);
            }
        }
    } else {
        if state.fullscreen == FullscreenState::Fullscreen {
            state.fullscreen = FullscreenState::NotFullscreen;
            if restore_blanking(state) {
                return Some(BlankingAction::Restore);
            }
        }
    }
    None
}

/// One audio-tracking tick on a fresh sample of the application's audio
/// status; the exact counterpart of [`evaluate_fullscreen_tracking`].
pub fn evaluate_audio_tracking(sample: bool, state: &mut State) -> (action: Option<BlankingAction>)
    ensures
        *final(state) == audio_next(*old(state), sample),
        action == audio_action(*old(state), sample),
        action is Some <==> final(state).screen_blanking != old(state).screen_blanking,
        final(state).fullscreen == old(state).fullscreen,
{
    if sample {
        if state.track_audio == TrackAudioState::Off {
            state.track_audio = TrackAudioState::On;
            if suppress_blanking(state) {
                return Some(BlankingAction::Suppress);
            }
        }
    } else {
        if state.track_audio == TrackAudioState::On {
            state.track_audio = TrackAudioState::Off;
            if restore_blanking(state) {
                return Some(BlankingAction::Restore);
            }
        }
    }
    None
}

/// One tick of the monitoring loop. Window closure takes priority: when the
/// window is gone, blanking is forced back on regardless of the tracked
/// states and the loop must shut down. Otherwise exactly one of the two
/// tracking evaluations runs, chosen by the mode fixed at startup; the other
/// mode's stored state is never touched. `sample` is the fresh observation of
/// the active mode's condition and is ignored on shutdown.
pub fn monitor_tick(mode: TrackingMode, window_open: bool, sample: bool, state: &mut State) -> (d:
    TickDecision)
    ensures
        !window_open ==> {
            &&& final(state).screen_blanking == ScreenBlankingState::On
            &&& final(state).fullscreen == old(state).fullscreen
            &&& final(state).track_audio == old(state).track_audio
            &&& d == (TickDecision::ShutDown { restore_effective: restore_effective(*old(state)) })
        },
        window_open && mode == TrackingMode::Fullscreen ==> {
            &&& *final(state) == fullscreen_next(*old(state), sample)
            &&& d == (TickDecision::Continue { action: fullscreen_action(*old(state), sample) })
        },
        window_open && mode == TrackingMode::Audio ==> {
            &&& *final(state) == audio_next(*old(state), sample)
            &&& d == (TickDecision::Continue { action: audio_action(*old(state), sample) })
        },
{
    if !window_open {
        let effective = restore_blanking(state);
        TickDecision::ShutDown { restore_effective: effective }
    } else {
        match mode {
            TrackingMode::Fullscreen => {
                let action = evaluate_fullscreen_tracking(sample, state);
                TickDecision::Continue { action }
            },
            TrackingMode::Audio => {
                let action = evaluate_audio_tracking(sample, state);
                TickDecision::Continue { action }
            },
        }
    }
}

} // verus!
