use attention::machine::evaluate_audio_tracking;
use attention::machine::evaluate_fullscreen_tracking;
use attention::machine::monitor_tick;
use attention::machine::restore_blanking;
use attention::machine::suppress_blanking;
use attention::machine::BlankingAction;
use attention::machine::TickDecision;
use attention::machine::TrackingMode;
use attention::state::FullscreenState;
use attention::state::ScreenBlankingState;
use attention::state::State;
use attention::state::TrackAudioState;

#[test]
fn starting_state_is_normal_power_management() {
    let s = State::new();
    assert!(s.screen_blanking == ScreenBlankingState::On);
    assert!(s.fullscreen == FullscreenState::NotFullscreen);
    assert!(s.track_audio == TrackAudioState::Off);
}

#[test]
fn fullscreen_scenario_counts_two_effective_actuations() {
    let samples = vec![false, false, true, true, false];
    let mut state = State::new();
    let mut actions: Vec<Option<BlankingAction>> = Vec::new();
    for sample in samples {
        actions.push(evaluate_fullscreen_tracking(sample, &mut state));
    }
    let expected = vec![
        None,
        None,
        Some(BlankingAction::Suppress),
        None,
        Some(BlankingAction::Restore),
    ];
    assert_eq!(actions, expected);
    let effective = actions.iter().filter(|a| a.is_some()).count();
    assert_eq!(effective, 2);
    assert!(state.screen_blanking == ScreenBlankingState::On);
    assert!(state.fullscreen == FullscreenState::NotFullscreen);
}

#[test]
fn audio_scenario_one_suppress_one_restore() {
    let samples = vec![true, true, true, false];
    let mut state = State::new();
    let mut actions: Vec<Option<BlankingAction>> = Vec::new();
    for sample in samples {
        actions.push(evaluate_audio_tracking(sample, &mut state));
    }
    let expected = vec![
        Some(BlankingAction::Suppress),
        None,
        None,
        Some(BlankingAction::Restore),
    ];
    assert_eq!(actions, expected);
    assert!(state.screen_blanking == ScreenBlankingState::On);
    assert!(state.track_audio == TrackAudioState::Off);
}

#[test]
fn window_closed_mid_fullscreen_forces_one_effective_restore() {
    let mut state = State::new();
    let action = evaluate_fullscreen_tracking(true, &mut state);
    assert_eq!(action, Some(BlankingAction::Suppress));
    assert!(state.screen_blanking == ScreenBlankingState::Off);

    let decision = monitor_tick(TrackingMode::Fullscreen, false, false, &mut state);
    assert_eq!(
        decision,
        TickDecision::ShutDown {
            restore_effective: true
        }
    );
    assert!(state.screen_blanking == ScreenBlankingState::On);
}

#[test]
fn window_closed_with_blanking_on_restores_as_noop() {
    let mut state = State::new();
    let decision = monitor_tick(TrackingMode::Audio, false, false, &mut state);
    assert_eq!(
        decision,
        TickDecision::ShutDown {
            restore_effective: false
        }
    );
    assert!(state.screen_blanking == ScreenBlankingState::On);
}

#[test]
fn repeated_suppress_is_effective_only_once() {
    let mut state = State::new();
    assert!(suppress_blanking(&mut state));
    assert!(!suppress_blanking(&mut state));
    assert!(state.screen_blanking == ScreenBlankingState::Off);
}

#[test]
fn repeated_restore_is_effective_only_once() {
    let mut state = State::new();
    assert!(suppress_blanking(&mut state));
    assert!(restore_blanking(&mut state));
    assert!(!restore_blanking(&mut state));
    assert!(state.screen_blanking == ScreenBlankingState::On);
}

#[test]
fn fullscreen_mode_never_touches_audio_state() {
    let mut state = State::new();
    for sample in [true, false, true, true] {
        let decision = monitor_tick(TrackingMode::Fullscreen, true, sample, &mut state);
        assert!(matches!(decision, TickDecision::Continue { .. }));
        assert!(state.track_audio == TrackAudioState::Off);
    }
}

#[test]
fn audio_mode_never_touches_fullscreen_state() {
    let mut state = State::new();
    for sample in [true, false, true, true] {
        let decision = monitor_tick(TrackingMode::Audio, true, sample, &mut state);
        assert!(matches!(decision, TickDecision::Continue { .. }));
        assert!(state.fullscreen == FullscreenState::NotFullscreen);
    }
}

#[test]
fn steady_state_tick_has_zero_side_effects() {
    let mut state = State::new();
    let before = state;
    let action = evaluate_fullscreen_tracking(false, &mut state);
    assert_eq!(action, None);
    assert!(state == before);
    let action = evaluate_audio_tracking(false, &mut state);
    assert_eq!(action, None);
    assert!(state == before);
}
