//! The shared record of the shell and the commands that change it.

use vstd::prelude::*;

verus! {

/// The three flags of the shell. They are independent: every combination is
/// a valid state.
#[derive(Clone, Copy, Debug, PartialEq, Eq, Structural)]
pub struct AppState {
    pub is_audio_mode: bool,
    pub is_playing: bool,
    pub is_window_visible: bool,
}

impl AppState {
    /// The state at process start: video mode, playing, window hidden.
    pub open spec fn initial() -> AppState {
        AppState { is_audio_mode: false, is_playing: true, is_window_visible: false }
    }

    /// The state with the audio-mode flag flipped.
    pub open spec fn with_audio_mode_toggled(self) -> AppState {
        AppState { is_audio_mode: !self.is_audio_mode, ..self }
    }

    /// The state with the playing flag flipped.
    pub open spec fn with_playback_toggled(self) -> AppState {
        AppState { is_playing: !self.is_playing, ..self }
    }

    /// The state with the window-visible flag set to `visible`.
    pub open spec fn with_window_visibility(self, visible: bool) -> AppState {
        AppState { is_window_visible: visible, ..self }
    }

    /// The state after `n` flips of the audio-mode flag.
    pub open spec fn after_audio_toggles(self, n: nat) -> AppState
        decreases n,
    {
        if n == 0 {
            self
        } else {
            self.after_audio_toggles((n - 1) as nat).with_audio_mode_toggled()
        }
    }

    /// The state after `n` flips of the playing flag.
    pub open spec fn after_playback_toggles(self, n: nat) -> AppState
        decreases n,
    {
        if n == 0 {
            self
        } else {
            self.after_playback_toggles((n - 1) as nat).with_playback_toggled()
        }
    }
}

impl Default for AppState {
    fn default() -> (state: AppState)
        ensures
            state == AppState::initial(),
    {
        AppState { is_audio_mode: false, is_playing: true, is_window_visible: false }
    }
}

/// Flips the audio-mode flag and returns its new value.
pub fn toggle_audio_mode(state: &mut AppState) -> (is_audio_mode: bool)
    ensures
        *final(state) == old(state).with_audio_mode_toggled(),
        is_audio_mode == !old(state).is_audio_mode,
        is_audio_mode == final(state).is_audio_mode,
{
    state.is_audio_mode = !state.is_audio_mode;
    state.is_audio_mode
}

/// Flips the playing flag and returns its new value.
pub fn toggle_playback(state: &mut AppState) -> (is_playing: bool)
    ensures
        *final(state) == old(state).with_playback_toggled(),
        is_playing == !old(state).is_playing,
        is_playing == final(state).is_playing,
{
    state.is_playing = !state.is_playing;
    state.is_playing
}

/// Records whether the window is visible.
pub fn set_window_visibility(state: &mut AppState, visible: bool)
    ensures
        *final(state) == old(state).with_window_visibility(visible),
        final(state).is_window_visible == visible,
{
    state.is_window_visible = visible;
}

/// A snapshot of the state.
pub fn get_app_state(state: &AppState) -> (snapshot: AppState)
    ensures
        snapshot == *state,
{
    *state
}

/// After `n` flips the audio-mode flag differs from what it was exactly if
/// `n` is odd, and the other two flags are as they were.
pub proof fn lemma_audio_toggles(state: AppState, n: nat)
    ensures
        state.after_audio_toggles(n) == (AppState {
            is_audio_mode: state.is_audio_mode != (n % 2 == 1),
            ..state
        }),
    decreases n,
{
    if n > 0 {
        lemma_audio_toggles(state, (n - 1) as nat);
    }
}

/// After `n` flips the playing flag differs from what it was exactly if `n`
/// is odd, and the other two flags are as they were.
pub proof fn lemma_playback_toggles(state: AppState, n: nat)
    ensures
        state.after_playback_toggles(n) == (AppState {
            is_playing: state.is_playing != (n % 2 == 1),
            ..state
        }),
    decreases n,
{
    if n > 0 {
        lemma_playback_toggles(state, (n - 1) as nat);
    }
}

/// From the state at startup, `n` flips of the audio-mode flag leave it set
/// exactly if `n` is odd.
pub proof fn lemma_audio_mode_from_start(n: nat)
    ensures
        AppState::initial().after_audio_toggles(n).is_audio_mode == (n % 2 == 1),
{
    lemma_audio_toggles(AppState::initial(), n);
}

/// From the state at startup, `n` flips of the playing flag leave it set
/// exactly if `n` is even: the first flip gives `false`, the second `true`,
/// and so on in turn.
pub proof fn lemma_playing_from_start(n: nat)
    ensures
        AppState::initial().after_playback_toggles(n).is_playing == (n % 2 == 0),
{
    lemma_playback_toggles(AppState::initial(), n);
}

/// A snapshot taken after the window's visibility was recorded reports the
/// value recorded, with the other two flags as they were.
pub proof fn lemma_visibility_is_reported(state: AppState, visible: bool)
    ensures
        state.with_window_visibility(visible).is_window_visible == visible,
        state.with_window_visibility(visible).is_audio_mode == state.is_audio_mode,
        state.with_window_visibility(visible).is_playing == state.is_playing,
{
}

} // verus!
