//! Whole-run properties of the tracking machine.
//!
//! A run is a fold of the per-tick step functions over a sequence of observed
//! samples. The lemmas here state the machine's guarantees over whole runs:
//! effective actuations happen exactly on value changes of the sampled
//! signal, the screen-blanking status always mirrors the active mode's stored
//! observation, and a run in one mode never touches the other mode's stored
//! state.

use vstd::prelude::*;
use crate::machine::audio_action;
use crate::machine::audio_next;
use crate::machine::audio_observed;
use crate::machine::fullscreen_action;
use crate::machine::fullscreen_next;
use crate::machine::fullscreen_observed;
use crate::state::initial_state;
use crate::state::ScreenBlankingState;
use crate::state::State;

verus! {

/// How many entries of `samples` differ from the value observed just before
/// them, the first entry being compared against `prev`.
pub open spec fn change_count(prev: bool, samples: Seq<bool>) -> nat
    decreases samples.len(),
{
    if samples.len() == 0 {
        0
    } else {
        (if samples[0] != prev {
            1nat
        } else {
            0nat
        }) + change_count(samples[0], samples.drop_first())
    }
}

/// The state after a whole run of fullscreen-tracking ticks, one per sample.
pub open spec fn run_fullscreen(s: State, samples: Seq<bool>) -> State
    decreases samples.len(),
{
    if samples.len() == 0 {
        s
    } else {
        run_fullscreen(fullscreen_next(s, samples[0]), samples.drop_first())
    }
}

/// How many ticks of a fullscreen-tracking run actually change
/// `screen_blanking` (and so notify), as opposed to performing no side
/// effect.
pub open spec fn effective_fullscreen_count(s: State, samples: Seq<bool>) -> nat
    decreases samples.len(),
{
    if samples.len() == 0 {
        0
    } else {
        (if fullscreen_action(s, samples[0]) is Some {
            1nat
        } else {
            0nat
        }) + effective_fullscreen_count(fullscreen_next(s, samples[0]), samples.drop_first())
    }
}

/// The state after a whole run of audio-tracking ticks, one per sample.
pub open spec fn run_audio(s: State, samples: Seq<bool>) -> State
    decreases samples.len(),
{
    if samples.len() == 0 {
        s
    } else {
        run_audio(audio_next(s, samples[0]), samples.drop_first())
    }
}

/// How many ticks of an audio-tracking run actually change
/// `screen_blanking`.
pub open spec fn effective_audio_count(s: State, samples: Seq<bool>) -> nat
    decreases samples.len(),
{
    if samples.len() == 0 {
        0
    } else {
        (if audio_action(s, samples[0]) is Some {
            1nat
        } else {
            0nat
        }) + effective_audio_count(audio_next(s, samples[0]), samples.drop_first())
    }
}

/// Under fullscreen tracking, screen blanking mirrors the stored fullscreen
/// observation: it is suppressed exactly while the window is recorded as
/// fullscreen.
pub open spec fn fullscreen_consistent(s: State) -> bool {
    (s.screen_blanking == ScreenBlankingState::Off) == fullscreen_observed(s)
}

/// Under audio tracking, screen blanking mirrors the stored audio
/// observation.
pub open spec fn audio_consistent(s: State) -> bool {
    (s.screen_blanking == ScreenBlankingState::Off) == audio_observed(s)
}

/// From any state in which blanking mirrors the fullscreen observation, a
/// fullscreen-tracking run keeps that mirror intact, and its number of
/// effective actuations equals the number of value changes in the sampled
/// sequence — one per edge, none for repeated observations.
pub proof fn lemma_fullscreen_effective_count(s: State, samples: Seq<bool>)
    requires
        fullscreen_consistent(s),
    ensures
        effective_fullscreen_count(s, samples) == change_count(
            fullscreen_observed(s),
            samples,
        ),
        fullscreen_consistent(run_fullscreen(s, samples)),
    decreases samples.len(),
{
    if samples.len() > 0 {
        let stepped = fullscreen_next(s, samples[0]);
        assert(fullscreen_consistent(stepped));
        assert(fullscreen_observed(stepped) == samples[0]);
        lemma_fullscreen_effective_count(stepped, samples.drop_first());
    }
}

/// The counterpart of [`lemma_fullscreen_effective_count`] for audio
/// tracking.
pub proof fn lemma_audio_effective_count(s: State, samples: Seq<bool>)
    requires
        audio_consistent(s),
    ensures
        effective_audio_count(s, samples) == change_count(audio_observed(s), samples),
        audio_consistent(run_audio(s, samples)),
    decreases samples.len(),
{
    if samples.len() > 0 {
        let stepped = audio_next(s, samples[0]);
        assert(audio_consistent(stepped));
        assert(audio_observed(stepped) == samples[0]);
        lemma_audio_effective_count(stepped, samples.drop_first());
    }
}

/// For every sequence of observed fullscreen samples, a run from the startup
/// state performs exactly as many effective actuations as the sampled
/// sequence has value changes (the first sample counting against the initial
/// "not fullscreen" observation) — not as many as it has samples.
pub proof fn lemma_fullscreen_actuations_match_changes(samples: Seq<bool>)
    ensures
        effective_fullscreen_count(initial_state(), samples) == change_count(false, samples),
{
    lemma_fullscreen_effective_count(initial_state(), samples);
}

/// For every sequence of observed audio samples, a run from the startup state
/// performs exactly as many effective actuations as the sampled sequence has
/// value changes.
pub proof fn lemma_audio_actuations_match_changes(samples: Seq<bool>)
    ensures
        effective_audio_count(initial_state(), samples) == change_count(false, samples),
{
    lemma_audio_effective_count(initial_state(), samples);
}

/// A fullscreen-tracking run never touches the stored audio observation: the
/// two tracked sub-states never both drive screen blanking in one run.
pub proof fn lemma_fullscreen_run_leaves_audio(s: State, samples: Seq<bool>)
    ensures
        run_fullscreen(s, samples).track_audio == s.track_audio,
    decreases samples.len(),
{
    if samples.len() > 0 {
        lemma_fullscreen_run_leaves_audio(fullscreen_next(s, samples[0]), samples.drop_first());
    }
}

/// An audio-tracking run never touches the stored fullscreen observation.
pub proof fn lemma_audio_run_leaves_fullscreen(s: State, samples: Seq<bool>)
    ensures
        run_audio(s, samples).fullscreen == s.fullscreen,
    decreases samples.len(),
{
    if samples.len() > 0 {
        lemma_audio_run_leaves_fullscreen(audio_next(s, samples[0]), samples.drop_first());
    }
}

} // verus!
