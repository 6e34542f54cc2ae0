use goobler::audio::devices::OutputDevice;
use goobler::config::{AudioConfig, Config, NoiseType};
use goobler::state::{AppMode, AppState};
use goobler::ui::screens::blanked::BlankedScreen;
use goobler::ui::screens::settings::{
    apply_discard, apply_save_result, current_device_label, device_label, save_button_label,
    Adjustment, KeyPresses, LevelStep, MenuItem, SettingsScreen,
};

fn state() -> AppState<u32> {
    AppState::new(Config { audio: AudioConfig::with_levels(5u32) }, true)
}

fn keys() -> KeyPresses {
    KeyPresses { escape: false, down: false, up: false, enter: false, right: false, left: false }
}

#[test]
fn blanked_screen_requests_fullscreen_once_per_entry() {
    let mut screen = BlankedScreen::new();
    let f1 = screen.frame(false);
    assert!(f1.request_fullscreen);
    assert!(!f1.switch_mode);
    let f2 = screen.frame(true);
    assert!(!f2.request_fullscreen);
    assert!(f2.switch_mode);
    screen.reset_fullscreen();
    assert!(screen.frame(false).request_fullscreen);
}

#[test]
fn menu_next_and_prev_wrap() {
    assert_eq!(MenuItem::OutputDevice.next(), MenuItem::NoiseType);
    assert_eq!(MenuItem::ExitWithoutSaving.next(), MenuItem::OutputDevice);
    assert_eq!(MenuItem::OutputDevice.prev(), MenuItem::ExitWithoutSaving);
    assert_eq!(MenuItem::Volume.prev(), MenuItem::NoiseType);
    for item in MenuItem::ALL.iter() {
        assert_eq!(item.next().prev(), *item);
        assert_eq!(item.prev().next(), *item);
        let mut m = *item;
        for _ in 0..15 {
            m = m.next();
        }
        assert_eq!(m, *item);
    }
}

#[test]
fn cycling_noise_types_follows_all() {
    let mut screen = SettingsScreen::new(true);
    let mut t = NoiseType::White;
    let mut seen = Vec::new();
    for _ in 0..6 {
        screen.cycle_noise_type(&mut t);
        seen.push(t);
    }
    assert_eq!(
        seen,
        vec![
            NoiseType::Pink,
            NoiseType::Brown,
            NoiseType::Green,
            NoiseType::Blue,
            NoiseType::Violet,
            NoiseType::White
        ]
    );
    let mut o = NoiseType::Violet;
    screen.cycle_overlay_type(&mut o);
    assert_eq!(o, NoiseType::White);
}

#[test]
fn new_settings_screen_selects_noise_type() {
    let screen = SettingsScreen::new(true);
    assert_eq!(screen.current_item(), MenuItem::NoiseType);
    assert!(screen.needs_device_list());
    assert!(screen.device_list().is_empty());
}

#[test]
fn device_list_is_kept() {
    let mut screen = SettingsScreen::new(false);
    let list = vec![OutputDevice { name: "a".to_string(), is_default: true }];
    screen.store_device_list(list.clone());
    assert!(!screen.needs_device_list());
    assert_eq!(screen.device_list(), &list[..]);
}

#[test]
fn escape_saves_and_exits() {
    let mut screen = SettingsScreen::new(true);
    let mut st = state();
    let out = screen.handle_keys(&mut st, KeyPresses { escape: true, ..keys() });
    assert!(out.should_save && out.should_exit && !out.should_discard);
    assert!(out.adjustments.is_empty());
    assert!(!st.unsaved_changes);
}

#[test]
fn arrows_move_and_change_values() {
    let mut screen = SettingsScreen::new(true);
    let mut st = state();
    let out = screen.handle_keys(&mut st, KeyPresses { down: true, right: true, ..keys() });
    assert_eq!(screen.current_item(), MenuItem::Volume);
    assert_eq!(out.adjustments, vec![Adjustment::Volume(1)]);
    assert_eq!(out.level_steps, vec![LevelStep::Volume(1)]);
    assert!(st.unsaved_changes);
    assert!(!out.should_exit);
    let out = screen.handle_keys(&mut st, KeyPresses { up: true, right: true, ..keys() });
    assert_eq!(screen.current_item(), MenuItem::NoiseType);
    assert_eq!(out.adjustments, vec![Adjustment::CycleNoiseType]);
    assert!(out.level_steps.is_empty());
    assert_eq!(st.config.audio.noise_type, NoiseType::Brown);
}

#[test]
fn enter_leaves_levels_alone() {
    let mut screen = SettingsScreen::new(true);
    let mut st = state();
    let out = screen.handle_keys(&mut st, KeyPresses { down: true, enter: true, ..keys() });
    assert_eq!(screen.current_item(), MenuItem::Volume);
    assert!(out.adjustments.is_empty());
    assert!(out.level_steps.is_empty());
    assert!(!st.unsaved_changes);
    let out = screen.handle_keys(&mut st, KeyPresses { left: true, enter: true, ..keys() });
    assert_eq!(out.adjustments, vec![Adjustment::Volume(-1)]);
}

#[test]
fn enter_toggles_and_cycles() {
    let mut screen = SettingsScreen::new(true);
    let mut st = state();
    let out = screen.handle_keys(&mut st, KeyPresses { enter: true, ..keys() });
    assert_eq!(out.adjustments, vec![Adjustment::CycleNoiseType]);
    assert_eq!(st.config.audio.noise_type, NoiseType::Brown);
    assert!(st.unsaved_changes);
    for _ in 0..3 {
        screen.handle_keys(&mut st, KeyPresses { down: true, ..keys() });
    }
    assert_eq!(screen.current_item(), MenuItem::LowPassEnabled);
    screen.handle_keys(&mut st, KeyPresses { enter: true, ..keys() });
    assert!(st.config.audio.low_pass_enabled);
    // Enter, right and left each flip the switch.
    screen.handle_keys(&mut st, KeyPresses { enter: true, right: true, left: true, ..keys() });
    assert!(!st.config.audio.low_pass_enabled);
    assert_eq!(st.config.audio.levels, 5);
}

#[test]
fn down_then_up_keeps_selection() {
    let mut screen = SettingsScreen::new(true);
    let mut st = state();
    let out = screen.handle_keys(&mut st, KeyPresses { down: true, up: true, ..keys() });
    assert_eq!(screen.current_item(), MenuItem::NoiseType);
    assert!(out.adjustments.is_empty());
}

#[test]
fn enter_on_exit_entries() {
    let mut screen = SettingsScreen::new(true);
    let mut st = state();
    for _ in 0..12 {
        screen.handle_keys(&mut st, KeyPresses { down: true, ..keys() });
    }
    assert_eq!(screen.current_item(), MenuItem::SaveAndExit);
    let out = screen.handle_keys(&mut st, KeyPresses { enter: true, right: true, ..keys() });
    assert!(out.should_save && out.should_exit && !out.should_discard);
    assert!(out.adjustments.is_empty());
    let out = screen.handle_keys(&mut st, KeyPresses { down: true, enter: true, ..keys() });
    assert_eq!(screen.current_item(), MenuItem::ExitWithoutSaving);
    assert!(!out.should_save && out.should_exit && out.should_discard);
    assert!(!st.unsaved_changes);
}

#[test]
fn value_change_on_violet_noise_type() {
    let mut screen = SettingsScreen::new(true);
    let mut st = state();
    st.config.audio.noise_type = NoiseType::Violet;
    let step = screen.handle_value_change(&mut st, false);
    assert_eq!(step, None);
    assert_eq!(st.config.audio.noise_type, NoiseType::White);
    assert!(st.unsaved_changes);
    assert_eq!(st.mode, AppMode::Blanked);
    assert_eq!(screen.current_item(), MenuItem::NoiseType);
    assert_eq!(st.config.audio.overlay_type, NoiseType::White);
    assert_eq!(st.config.audio.levels, 5);
}

#[test]
fn value_changes_per_entry() {
    let mut screen = SettingsScreen::new(true);
    let mut found = Vec::new();
    for _ in 0..15 {
        let mut st = state();
        let up = screen.handle_value_change(&mut st, true);
        let marked = st.unsaved_changes;
        let down = screen.handle_value_change(&mut st, false);
        found.push((screen.current_item(), up, down, marked));
        screen.handle_keys(&mut st, KeyPresses { down: true, ..keys() });
    }
    assert_eq!(found[0], (MenuItem::NoiseType, None, None, true));
    assert_eq!(found[1], (MenuItem::Volume, Some(LevelStep::Volume(1)), Some(LevelStep::Volume(-1)), true));
    assert_eq!(found[2], (MenuItem::BassBoost, Some(LevelStep::BassBoost(1)), Some(LevelStep::BassBoost(-1)), true));
    assert_eq!(found[3], (MenuItem::LowPassEnabled, None, None, true));
    assert_eq!(found[6], (MenuItem::HighPassFreq, Some(LevelStep::HighPassFreq(1)), Some(LevelStep::HighPassFreq(-1)), true));
    assert_eq!(found[11], (MenuItem::OverlayAmount, Some(LevelStep::OverlayAmount(1)), Some(LevelStep::OverlayAmount(-1)), true));
    assert_eq!(found[12], (MenuItem::SaveAndExit, None, None, false));
    assert_eq!(found[14], (MenuItem::OutputDevice, None, None, false));
}

#[test]
fn toggle_twice_restores_switch() {
    let mut screen = SettingsScreen::new(true);
    let mut st = state();
    for _ in 0..9 {
        screen.handle_keys(&mut st, KeyPresses { down: true, ..keys() });
    }
    assert_eq!(screen.current_item(), MenuItem::OverlayEnabled);
    screen.handle_value_change(&mut st, true);
    assert!(st.config.audio.overlay_enabled);
    screen.handle_value_change(&mut st, false);
    assert!(!st.config.audio.overlay_enabled);
}

#[test]
fn device_labels() {
    let devices = vec![
        OutputDevice { name: "pulse".to_string(), is_default: true },
        OutputDevice { name: "hdmi".to_string(), is_default: false },
    ];
    assert_eq!(device_label(&devices[0]), "pulse (Default)");
    assert_eq!(device_label(&devices[1]), "hdmi");
    assert_eq!(current_device_label(&None, &devices), "Default");
    assert_eq!(current_device_label(&Some("pulse".to_string()), &devices), "pulse (Default)");
    assert_eq!(current_device_label(&Some("hdmi".to_string()), &devices), "hdmi");
    assert_eq!(current_device_label(&Some("usb".to_string()), &devices), "usb (Not Found)");
}

#[test]
fn save_button_caption() {
    assert_eq!(save_button_label(true), "Save & Exit *");
    assert_eq!(save_button_label(false), "Save & Exit");
}

#[test]
fn discard_and_save_results() {
    let saved = Config { audio: AudioConfig::with_levels(5u32) };
    let mut st = state();
    st.config.audio.levels = 9;
    st.mark_unsaved();
    apply_discard(&mut st, Some(saved));
    assert_eq!(st.config.audio.levels, 5);
    assert!(!st.unsaved_changes);
    st.config.audio.levels = 6;
    st.mark_unsaved();
    apply_discard(&mut st, None);
    assert_eq!(st.config.audio.levels, 6);
    assert!(!st.unsaved_changes);
    st.mark_unsaved();
    apply_save_result(&mut st, false);
    assert!(st.unsaved_changes);
    apply_save_result(&mut st, true);
    assert!(!st.unsaved_changes);
    assert_eq!(st.mode, AppMode::Blanked);
}
