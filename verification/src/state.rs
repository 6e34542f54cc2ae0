//! The application's mode machine and the bookkeeping around it.

use vstd::prelude::*;
use crate::config::{AudioConfig, Config};

verus! {

/// What the window shows: a black screen or the settings menu.
#[derive(Debug, Clone, Copy, PartialEq, Eq, Structural)]
pub enum AppMode {
    Blanked,
    Settings,
}

impl AppMode {
    /// The other mode.
    pub open spec fn flipped(self) -> AppMode {
        match self {
            AppMode::Blanked => AppMode::Settings,
            AppMode::Settings => AppMode::Blanked,
        }
    }
}

/// The state of the application. `L` is the floating-point part of the
/// configuration (see `AudioConfig`).
#[derive(Debug, Clone)]
pub struct AppState<L> {
    pub mode: AppMode,
    pub config: Config<L>,
    pub config_loaded: bool,
    pub unsaved_changes: bool,
    pub audio_error: Option<String>,
}

impl<L> AppState<L> {
    /// Starts on the black screen when a saved configuration was found,
    /// and in the settings menu otherwise.
    pub fn new(config: Config<L>, config_loaded: bool) -> (s: Self)
        ensures
            s.mode == (if config_loaded { AppMode::Blanked } else { AppMode::Settings }),
            s.config == config,
            s.config_loaded == config_loaded,
            !s.unsaved_changes,
            s.audio_error is None,
    {
        AppState {
            mode: if config_loaded {
                AppMode::Blanked
            } else {
                AppMode::Settings
            },
            config,
            config_loaded,
            unsaved_changes: false,
            audio_error: None,
        }
    }

    /// Everything but the mode is the same in both states.
    pub open spec fn same_except_mode(self, other: Self) -> bool {
        &&& self.config == other.config
        &&& self.config_loaded == other.config_loaded
        &&& self.unsaved_changes == other.unsaved_changes
        &&& self.audio_error == other.audio_error
    }

    /// Enters the settings menu from the black screen; does nothing in the menu.
    pub fn switch_to_settings(&mut self)
        ensures
            final(self).mode == AppMode::Settings,
            final(self).same_except_mode(*old(self)),
    {
        if self.mode == AppMode::Blanked {
            self.mode = AppMode::Settings;
        }
    }

    /// Leaves the settings menu for the black screen; does nothing when blank.
    pub fn switch_to_blank(&mut self)
        ensures
            final(self).mode == AppMode::Blanked,
            final(self).same_except_mode(*old(self)),
    {
        if self.mode == AppMode::Settings {
            self.mode = AppMode::Blanked;
        }
    }

    /// Swaps the mode.
    pub fn toggle_mode(&mut self)
        ensures
            final(self).mode == old(self).mode.flipped(),
            final(self).same_except_mode(*old(self)),
    {
        self.mode = match self.mode {
            AppMode::Blanked => AppMode::Settings,
            AppMode::Settings => AppMode::Blanked,
        };
    }

    /// The audio configuration.
    pub fn get_audio_config(&self) -> (c: &AudioConfig<L>)
        ensures
            *c == self.config.audio,
    {
        &self.config.audio
    }

    /// The audio configuration, for changing.
    pub fn get_audio_config_mut(&mut self) -> (c: &mut AudioConfig<L>)
        ensures
            *c == old(self).config.audio,
            final(self).config.audio == *final(c),
            final(self).mode == old(self).mode,
            final(self).config_loaded == old(self).config_loaded,
            final(self).unsaved_changes == old(self).unsaved_changes,
            final(self).audio_error == old(self).audio_error,
    {
        &mut self.config.audio
    }

    /// Records that the configuration differs from the saved one.
    pub fn mark_unsaved(&mut self)
        ensures
            final(self).unsaved_changes,
            *final(self) == (AppState { unsaved_changes: true, ..*old(self) }),
    {
        self.unsaved_changes = true;
    }

    /// Records that the configuration matches the saved one.
    pub fn mark_saved(&mut self)
        ensures
            !final(self).unsaved_changes,
            *final(self) == (AppState { unsaved_changes: false, ..*old(self) }),
    {
        self.unsaved_changes = false;
    }

    /// Records why audio could not start.
    pub fn set_audio_error(&mut self, msg: String)
        ensures
            final(self).audio_error == Some(msg),
            *final(self) == (AppState { audio_error: Some(msg), ..*old(self) }),
    {
        self.audio_error = Some(msg);
    }

    /// Forgets any audio error.
    pub fn clear_audio_error(&mut self)
        ensures
            final(self).audio_error is None,
            *final(self) == (AppState { audio_error: None, ..*old(self) }),
    {
        self.audio_error = None;
    }
}

/// Toggling the mode twice gives back the state one started with.
pub proof fn lemma_toggle_twice_restores<L>(s: AppState<L>, t: AppState<L>, u: AppState<L>)
    requires
        t.mode == s.mode.flipped(),
        t.same_except_mode(s),
        u.mode == t.mode.flipped(),
        u.same_except_mode(t),
    ensures
        u == s,
{
}

/// Leaving the black screen for the menu and coming back leaves the state as it was.
pub proof fn lemma_settings_round_trip<L>(s: AppState<L>, t: AppState<L>, u: AppState<L>)
    requires
        s.mode == AppMode::Blanked,
        t.mode == AppMode::Settings,
        t.same_except_mode(s),
        u.mode == AppMode::Blanked,
        u.same_except_mode(t),
    ensures
        u == s,
{
}

} // verus!
