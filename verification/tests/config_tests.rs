use recenter_mouse::config::AppConfig;

#[test]
fn test_hotkey_display() {
    let cfg = AppConfig::default();
    assert_eq!(cfg.hotkey_display(), "Ctrl + Alt + C");

    let custom = AppConfig {
        ctrl: true,
        alt: false,
        shift: true,
        win: true,
        key: "F1".to_string(),
        move_window: true,
        start_with_windows: false,
    };
    assert_eq!(custom.hotkey_display(), "Ctrl + Shift + Win + F1");
}

fn config(ctrl: bool, alt: bool, shift: bool, win: bool, key: &str) -> AppConfig {
    AppConfig {
        ctrl,
        alt,
        shift,
        win,
        key: key.to_string(),
        move_window: false,
        start_with_windows: false,
    }
}

#[test]
fn display_without_modifiers_is_the_key_alone() {
    assert_eq!(config(false, false, false, false, "Space").hotkey_display(), "Space");
}

#[test]
fn display_with_every_modifier_keeps_their_order() {
    assert_eq!(config(true, true, true, true, "X").hotkey_display(), "Ctrl + Alt + Shift + Win + X");
    assert_eq!(config(false, true, false, true, "9").hotkey_display(), "Alt + Win + 9");
}

#[test]
fn default_configuration_values() {
    let cfg = AppConfig::default();
    assert!(cfg.ctrl && cfg.alt && !cfg.shift && !cfg.win);
    assert_eq!(cfg.key, "C");
    assert!(cfg.move_window);
    assert!(!cfg.start_with_windows);
}

#[test]
fn toggling_a_switch_twice_restores_it() {
    let mut cfg = AppConfig::default();
    cfg.toggle_move_window();
    assert!(!cfg.move_window);
    cfg.toggle_move_window();
    assert!(cfg.move_window);
    cfg.toggle_start_with_windows();
    assert!(cfg.start_with_windows);
    cfg.toggle_start_with_windows();
    assert!(!cfg.start_with_windows);
    assert_eq!(cfg.hotkey_display(), "Ctrl + Alt + C");
}

#[test]
fn config_path_under_appdata() {
    let parts = AppConfig::config_path(Some("C:\\Users\\me\\AppData\\Roaming"));
    assert_eq!(parts, vec!["C:\\Users\\me\\AppData\\Roaming".to_string(), "RecenterMouse".to_string(), "config.json".to_string()]);
}

#[test]
fn config_path_without_appdata() {
    let parts = AppConfig::config_path(None);
    assert_eq!(parts, vec!["recenter_mouse_config.json".to_string()]);
}

#[test]
fn load_keeps_a_parsed_configuration() {
    let parsed = config(false, true, true, false, "F5");
    let (cfg, save) = AppConfig::load(Some(parsed));
    assert!(!save);
    assert_eq!(cfg.hotkey_display(), "Alt + Shift + F5");
}

#[test]
fn load_falls_back_to_defaults_and_saves_them() {
    let (cfg, save) = AppConfig::load(None);
    assert!(save);
    assert_eq!(cfg.hotkey_display(), "Ctrl + Alt + C");
    assert!(cfg.move_window);
}
