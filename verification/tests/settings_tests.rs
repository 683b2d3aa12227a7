use recenter_mouse::config::AppConfig;
use recenter_mouse::hotkey::parse_key_str;
use recenter_mouse::settings_ui::{
    dialog_position, initial_dialog_state, initial_key_index, keys_list, save_failure_message,
    validate_settings, SettingsError, SettingsForm, KEY_COUNT,
};

fn form(ctrl: bool, alt: bool, shift: bool, win: bool, selected_key: isize) -> SettingsForm {
    SettingsForm { ctrl, alt, shift, win, selected_key, move_window: true, start_with_windows: false }
}

#[test]
fn the_dialog_offers_fifty_nine_keys() {
    let keys = keys_list();
    assert_eq!(keys.len(), KEY_COUNT);
    assert_eq!(keys[0], "A");
    assert_eq!(keys[25], "Z");
    assert_eq!(keys[26], "0");
    assert_eq!(keys[36], "F1");
    assert_eq!(keys[48], "Space");
    assert_eq!(keys[58], "PageDown");
}

#[test]
fn every_offered_key_parses_to_a_distinct_code() {
    let keys = keys_list();
    let codes: Vec<u32> = keys.iter().map(|k| parse_key_str(k).expect("offered key must parse")).collect();
    for i in 0..codes.len() {
        for j in 0..codes.len() {
            if i != j {
                assert_ne!(codes[i], codes[j]);
            }
        }
    }
}

#[test]
fn saved_key_is_preselected_again() {
    let keys = keys_list();
    for i in 0..keys.len() {
        assert_eq!(initial_key_index(keys[i]), i);
        assert_eq!(initial_key_index(&keys[i].to_lowercase()), i);
    }
}

#[test]
fn unknown_key_preselects_the_first_entry() {
    assert_eq!(initial_key_index("Left"), 0);
    assert_eq!(initial_key_index(""), 0);
    assert_eq!(initial_key_index(" C"), 0);
}

#[test]
fn initial_state_follows_the_configuration() {
    let cfg = AppConfig::default();
    let s = initial_dialog_state(&cfg, false);
    assert!(s.ctrl && s.alt && !s.shift && !s.win);
    assert_eq!(s.key_index, 2);
    assert!(s.move_window);
    assert!(!s.start_with_windows);
    assert!(initial_dialog_state(&cfg, true).start_with_windows);
}

#[test]
fn dialog_is_centred() {
    assert_eq!(dialog_position(1920, 1080), (750, 355));
    assert_eq!(dialog_position(400, 300), (-10, -35));
    assert_eq!(dialog_position(419, 369), (0, 0));
}

#[test]
fn settings_without_modifier_are_refused() {
    let r = validate_settings(&form(false, false, false, false, 3));
    assert_eq!(r.unwrap_err(), SettingsError::NoModifier);
    assert_eq!(SettingsError::NoModifier.title(), "Invalid Hotkey");
    assert_eq!(
        SettingsError::NoModifier.message(),
        "Please select at least one modifier key (Ctrl, Alt, Shift, or Win)."
    );
}

#[test]
fn settings_without_key_are_refused() {
    assert_eq!(validate_settings(&form(true, false, false, false, -1)).unwrap_err(), SettingsError::NoTriggerKey);
    assert_eq!(validate_settings(&form(false, false, true, false, 59)).unwrap_err(), SettingsError::NoTriggerKey);
    assert_eq!(SettingsError::NoTriggerKey.title(), "Invalid Key");
    assert_eq!(SettingsError::NoTriggerKey.message(), "Please select a trigger key.");
    assert_eq!(SettingsError::UnparsableKey.title(), "Invalid Key");
    assert_eq!(
        SettingsError::UnparsableKey.message(),
        "Selected key cannot be parsed as a valid Windows key."
    );
}

#[test]
fn valid_settings_build_the_configuration() {
    let cfg = validate_settings(&SettingsForm {
        ctrl: false,
        alt: true,
        shift: false,
        win: true,
        selected_key: 47,
        move_window: false,
        start_with_windows: true,
    })
    .unwrap();
    assert_eq!(cfg.key, "F12");
    assert_eq!(cfg.hotkey_display(), "Alt + Win + F12");
    assert!(!cfg.move_window);
    assert!(cfg.start_with_windows);
    assert_eq!(initial_key_index(&cfg.key), 47);
}

#[test]
fn every_selectable_key_is_accepted() {
    for i in 0..KEY_COUNT as isize {
        let cfg = validate_settings(&form(true, true, false, false, i)).unwrap();
        assert!(parse_key_str(&cfg.key).is_some());
    }
}

#[test]
fn save_failure_text() {
    assert_eq!(save_failure_message("disk full"), "Failed to save configuration file:\ndisk full");
}
