use goobler::config::{AudioConfig, Config, NoiseType, DEFAULT_SAMPLE_RATE};
use goobler::state::{AppMode, AppState};

fn config<L>(levels: L) -> Config<L> {
    Config { audio: AudioConfig::with_levels(levels) }
}

#[test]
fn new_state_with_loaded_config_starts_blank() {
    let s = AppState::new(config(7u32), true);
    assert_eq!(s.mode, AppMode::Blanked);
    assert_eq!(s.config.audio.levels, 7);
    assert!(s.config_loaded);
    assert!(!s.unsaved_changes);
    assert_eq!(s.audio_error, None);
}

#[test]
fn new_state_without_config_starts_in_settings() {
    let s = AppState::new(config(0u32), false);
    assert_eq!(s.mode, AppMode::Settings);
    assert!(!s.config_loaded);
}

#[test]
fn switch_to_settings_and_back() {
    let mut s = AppState::new(config(1u8), true);
    s.switch_to_settings();
    assert_eq!(s.mode, AppMode::Settings);
    s.switch_to_settings();
    assert_eq!(s.mode, AppMode::Settings);
    s.switch_to_blank();
    assert_eq!(s.mode, AppMode::Blanked);
    s.switch_to_blank();
    assert_eq!(s.mode, AppMode::Blanked);
    assert_eq!(s.config.audio.levels, 1);
}

#[test]
fn toggle_twice_restores_mode() {
    let mut s = AppState::new(config(3i64), false);
    s.toggle_mode();
    assert_eq!(s.mode, AppMode::Blanked);
    s.toggle_mode();
    assert_eq!(s.mode, AppMode::Settings);
}

#[test]
fn unsaved_flag_and_audio_error() {
    let mut s = AppState::new(config(()), true);
    s.mark_unsaved();
    assert!(s.unsaved_changes);
    s.mark_saved();
    assert!(!s.unsaved_changes);
    s.set_audio_error("no device".to_string());
    assert_eq!(s.audio_error, Some("no device".to_string()));
    s.clear_audio_error();
    assert_eq!(s.audio_error, None);
}

#[test]
fn config_access() {
    let mut s = AppState::new(config(vec![1, 2]), true);
    assert_eq!(s.get_audio_config().levels, vec![1, 2]);
    s.get_audio_config_mut().levels.push(3);
    s.get_audio_config_mut().overlay_enabled = true;
    assert_eq!(s.config.audio.levels, vec![1, 2, 3]);
    assert!(s.config.audio.overlay_enabled);
    assert!(!s.unsaved_changes);
}

#[test]
fn default_audio_settings() {
    let c = AudioConfig::with_levels(0u8);
    assert_eq!(c.noise_type, NoiseType::Pink);
    assert!(!c.low_pass_enabled);
    assert!(!c.high_pass_enabled);
    assert!(!c.smoothing_enabled);
    assert!(!c.overlay_enabled);
    assert_eq!(c.overlay_type, NoiseType::White);
    assert_eq!(c.sample_rate, 44100);
    assert_eq!(DEFAULT_SAMPLE_RATE, 44100);
    assert_eq!(c.output_device, None);
}
