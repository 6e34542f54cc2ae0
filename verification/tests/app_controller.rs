use goobler::config::{AudioConfig, Config};
use goobler::state::AppMode;

fn config(device: Option<&str>) -> Config<()> {
    let mut audio = AudioConfig::with_levels(());
    audio.output_device = device.map(|d| d.to_string());
    Config { audio }
}
use goobler::ui::app::{AppController, AudioUpdate, Repaint, BLANKED_REPAINT_MILLIS};
use goobler::ui::screens::settings::MenuItem;

#[test]
fn starts_according_to_loaded_config() {
    let app = AppController::new(config(Some("usb")), true);
    assert_eq!(app.state.mode, AppMode::Blanked);
    assert_eq!(app.previous_output_device, Some("usb".to_string()));
    assert!(app.previous_cursor_visible);
    assert_eq!(app.settings_screen.current_item(), MenuItem::NoiseType);
    let app = AppController::new(config(None), false);
    assert_eq!(app.state.mode, AppMode::Settings);
}

#[test]
fn cursor_hidden_when_blank_and_shown_once_in_menu() {
    let mut app = AppController::new(config(None), true);
    assert_eq!(app.cursor_command(), Some(false));
    assert_eq!(app.cursor_command(), Some(false));
    app.state.switch_to_settings();
    assert_eq!(app.cursor_command(), Some(true));
    assert_eq!(app.cursor_command(), None);
}

#[test]
fn switching_modes() {
    let mut app = AppController::new(config(None), true);
    assert!(app.blanked_screen.frame(false).request_fullscreen);
    assert!(!app.switch_mode(Some(false)));
    assert_eq!(app.state.mode, AppMode::Settings);
    assert!(app.blanked_screen.frame(false).request_fullscreen);
    assert!(app.switch_mode(Some(false)));
    assert_eq!(app.state.mode, AppMode::Blanked);
    app.switch_mode(None);
    assert!(!app.switch_mode(Some(true)));
    app.switch_mode(None);
    assert!(!app.switch_mode(None));
}

#[test]
fn audio_restarts_only_on_device_change() {
    let mut app = AppController::new(config(None), false);
    assert_eq!(app.plan_audio_update(true), AudioUpdate::ApplyConfig);
    assert_eq!(app.plan_audio_update(false), AudioUpdate::Nothing);
    let usb = Some("usb".to_string());
    app.state.config.audio.output_device = usb.clone();
    assert_eq!(app.plan_audio_update(true), AudioUpdate::Reinitialize);
    assert_eq!(app.previous_output_device, usb);
    assert_eq!(app.plan_audio_update(true), AudioUpdate::ApplyConfig);
    app.state.config.audio.output_device = None;
    assert_eq!(app.plan_audio_update(false), AudioUpdate::Reinitialize);
}

#[test]
fn saves_on_exit_only_with_unsaved_changes() {
    let mut app = AppController::new(config(None), true);
    assert!(!app.should_save_on_exit());
    app.state.mark_unsaved();
    assert!(app.should_save_on_exit());
    app.state.mark_saved();
    assert!(!app.should_save_on_exit());
}

#[test]
fn repaint_depends_on_mode() {
    let mut app = AppController::new(config(None), false);
    assert_eq!(app.repaint_policy(), Repaint::Continuous);
    app.state.switch_to_blank();
    assert_eq!(app.repaint_policy(), Repaint::AfterMillis(BLANKED_REPAINT_MILLIS));
    assert_eq!(BLANKED_REPAINT_MILLIS, 100);
}
