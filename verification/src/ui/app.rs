//! The decisions the application makes on each frame: the cursor, switching
//! between the black screen and the menu, when audio is restarted, and how
//! often the window is redrawn. The window system and the audio engine carry
//! them out.

use vstd::prelude::*;
use crate::config::Config;
use crate::state::{AppMode, AppState};
use crate::ui::screens::blanked::BlankedScreen;
use crate::ui::screens::settings::SettingsScreen;

verus! {

/// How long the black screen waits between redraws, in milliseconds.
pub const BLANKED_REPAINT_MILLIS: u64 = 100;

/// What to do with the audio engine after the menu may have changed the configuration.
#[derive(Debug, Clone, Copy, PartialEq, Eq, Structural)]
pub enum AudioUpdate {
    /// The output device changed: build the engine anew.
    Reinitialize,
    /// Same device: hand the engine the current configuration.
    ApplyConfig,
    /// Same device and no engine: nothing to do.
    Nothing,
}

/// When to draw the next frame.
#[derive(Debug, Clone, Copy, PartialEq, Eq, Structural)]
pub enum Repaint {
    /// Right away, so that sliders respond at once.
    Continuous,
    /// After this many milliseconds, to keep reading keys while using little power.
    AfterMillis(u64),
}

/// The chosen device as text, or `None` for the system default.
pub open spec fn device_choice(d: Option<String>) -> Option<Seq<char>> {
    match d {
        Some(s) => Some(s@),
        None => None,
    }
}

/// The cursor command of one frame and whether the cursor counts as visible
/// afterwards, from the mode and whether it counted as visible before.
pub open spec fn cursor_step(mode: AppMode, previously_visible: bool) -> (Option<bool>, bool) {
    match mode {
        AppMode::Blanked => (Some(false), false),
        AppMode::Settings => if previously_visible {
            (None, true)
        } else {
            (Some(true), true)
        },
    }
}

/// What the audio engine needs, from the remembered device, the device the
/// configuration names now, and whether there is an engine.
pub open spec fn audio_plan(
    previous: Option<Seq<char>>,
    current: Option<Seq<char>>,
    has_audio: bool,
) -> AudioUpdate {
    if previous != current {
        AudioUpdate::Reinitialize
    } else if has_audio {
        AudioUpdate::ApplyConfig
    } else {
        AudioUpdate::Nothing
    }
}

/// The application's state together with its screens and what it remembers
/// between frames. `L` is the floating-point part of the configuration.
pub struct AppController<L> {
    pub state: AppState<L>,
    pub blanked_screen: BlankedScreen,
    pub settings_screen: SettingsScreen,
    pub previous_output_device: Option<String>,
    pub previous_cursor_visible: bool,
}

impl<L> AppController<L> {
    /// The application as it starts: its state from the configuration, both
    /// screens fresh, the configured device remembered, the cursor visible.
    pub fn new(config: Config<L>, config_loaded: bool) -> (app: Self)
        ensures
            app.state.mode == (if config_loaded {
                AppMode::Blanked
            } else {
                AppMode::Settings
            }),
            app.state.config == config,
            app.state.config_loaded == config_loaded,
            !app.state.unsaved_changes,
            app.state.audio_error is None,
            !app.blanked_screen.has_requested_fullscreen(),
            app.settings_screen.selected() == crate::ui::screens::settings::MenuItem::NoiseType,
            app.settings_screen.cached_devices() is None,
            app.settings_screen.started_playing(),
            device_choice(app.previous_output_device) == device_choice(config.audio.output_device),
            app.previous_cursor_visible,
    {
        let previous_output_device = clone_device(&config.audio.output_device);
        AppController {
            state: AppState::new(config, config_loaded),
            blanked_screen: BlankedScreen::new(),
            settings_screen: SettingsScreen::new(true),
            previous_output_device,
            previous_cursor_visible: true,
        }
    }

    /// The cursor command for this frame: the black screen hides the cursor
    /// on every frame; the menu shows it once, when it was hidden before.
    pub fn cursor_command(&mut self) -> (cmd: Option<bool>)
        ensures
            (cmd, final(self).previous_cursor_visible) == cursor_step(
                old(self).state.mode,
                old(self).previous_cursor_visible,
            ),
            final(self).state == old(self).state,
            final(self).blanked_screen == old(self).blanked_screen,
            final(self).settings_screen == old(self).settings_screen,
            final(self).previous_output_device == old(self).previous_output_device,
    {
        match self.state.mode {
            AppMode::Blanked => {
                self.previous_cursor_visible = false;
                Some(false)
            },
            AppMode::Settings => {
                if !self.previous_cursor_visible {
                    self.previous_cursor_visible = true;
                    Some(true)
                } else {
                    None
                }
            },
        }
    }

    /// Switches between the black screen and the menu. Leaving the black
    /// screen forgets its fullscreen request; entering it asks for playback to
    /// start when there is an engine and it is not playing. `audio_playing` is
    /// `None` when there is no engine. Returns whether to start playback.
    pub fn switch_mode(&mut self, audio_playing: Option<bool>) -> (start_playback: bool)
        ensures
            final(self).state.mode == old(self).state.mode.flipped(),
            final(self).state.same_except_mode(old(self).state),
            old(self).state.mode == AppMode::Blanked
                ==> !final(self).blanked_screen.has_requested_fullscreen(),
            old(self).state.mode == AppMode::Settings
                ==> final(self).blanked_screen == old(self).blanked_screen,
            start_playback == (old(self).state.mode == AppMode::Settings
                && audio_playing == Some(false)),
            final(self).settings_screen == old(self).settings_screen,
            final(self).previous_output_device == old(self).previous_output_device,
            final(self).previous_cursor_visible == old(self).previous_cursor_visible,
    {
        match self.state.mode {
            AppMode::Blanked => {
                self.state.switch_to_settings();
                self.blanked_screen.reset_fullscreen();
                false
            },
            AppMode::Settings => {
                self.state.switch_to_blank();
                match audio_playing {
                    Some(is_playing) => !is_playing,
                    None => false,
                }
            },
        }
    }

    /// Decides what the audio engine needs after a frame of the menu, given
    /// whether there is an engine: a device other than the remembered one in
    /// the configuration means building the engine anew (and remembering the
    /// device); otherwise an engine just takes the configuration.
    pub fn plan_audio_update(&mut self, has_audio: bool) -> (plan: AudioUpdate)
        ensures
            plan == audio_plan(
                device_choice(old(self).previous_output_device),
                device_choice(old(self).state.config.audio.output_device),
                has_audio,
            ),
            device_choice(final(self).previous_output_device) == device_choice(
                old(self).state.config.audio.output_device,
            ),
            final(self).state == old(self).state,
            final(self).blanked_screen == old(self).blanked_screen,
            final(self).settings_screen == old(self).settings_screen,
            final(self).previous_cursor_visible == old(self).previous_cursor_visible,
    {
        if !same_device(&self.previous_output_device, &self.state.config.audio.output_device) {
            self.previous_output_device = clone_device(&self.state.config.audio.output_device);
            AudioUpdate::Reinitialize
        } else if has_audio {
            AudioUpdate::ApplyConfig
        } else {
            AudioUpdate::Nothing
        }
    }

    /// The configuration is written when the program ends only if it has
    /// unsaved changes.
    pub fn should_save_on_exit(&self) -> (save: bool)
        ensures
            save == self.state.unsaved_changes,
    {
        self.state.unsaved_changes
    }

    /// The menu redraws continuously; the black screen every so often.
    pub fn repaint_policy(&self) -> (r: Repaint)
        ensures
            r == match self.state.mode {
                AppMode::Settings => Repaint::Continuous,
                AppMode::Blanked => Repaint::AfterMillis(BLANKED_REPAINT_MILLIS),
            },
    {
        match self.state.mode {
            AppMode::Settings => Repaint::Continuous,
            AppMode::Blanked => Repaint::AfterMillis(BLANKED_REPAINT_MILLIS),
        }
    }
}

/// A copy of a device choice.
fn clone_device(d: &Option<String>) -> (c: Option<String>)
    ensures
        device_choice(c) == device_choice(*d),
{
    match d {
        Some(name) => Some(name.clone()),
        None => None,
    }
}

/// Whether two device choices name the same device.
fn same_device(a: &Option<String>, b: &Option<String>) -> (same: bool)
    ensures
        same == (device_choice(*a) == device_choice(*b)),
{
    match (a, b) {
        (Some(x), Some(y)) => *x == *y,
        (None, None) => true,
        _ => false,
    }
}

/// The engine is built anew once per change of device: once the device is
/// remembered, looking at the same device again asks for no rebuild.
pub proof fn lemma_reinitialize_once_per_device_change(
    previous: Option<Seq<char>>,
    current: Option<Seq<char>>,
    has_audio: bool,
)
    ensures
        audio_plan(previous, current, has_audio) == AudioUpdate::Reinitialize <==> previous
            != current,
        audio_plan(current, current, has_audio) != AudioUpdate::Reinitialize,
{
}

/// The black screen hides the cursor on every frame, while the menu shows it
/// once: the frame after a menu frame sends nothing, and the first menu frame
/// after the black screen shows it.
pub proof fn lemma_cursor_shown_once(visible: bool)
    ensures
        cursor_step(AppMode::Settings, cursor_step(AppMode::Settings, visible).1).0 is None,
        cursor_step(AppMode::Settings, cursor_step(AppMode::Blanked, visible).1).0 == Some(true),
        cursor_step(AppMode::Blanked, visible).0 == Some(false),
{
}

} // verus!
