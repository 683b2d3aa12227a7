use recenter_mouse::config::AppConfig;
use recenter_mouse::hotkey as k;
use recenter_mouse::hotkey::{
    get_modifiers_mask, hotkey_registration, parse_key_str, registration_failure_message,
    HotkeyBinding, RECENTER_HOTKEY_ID,
};
use windows_sys::Win32::UI::Input::KeyboardAndMouse::{
    MOD_ALT, MOD_CONTROL, MOD_NOREPEAT, MOD_SHIFT, MOD_WIN, VK_BACK, VK_DELETE, VK_DOWN, VK_END,
    VK_ESCAPE, VK_F1, VK_F10, VK_F11, VK_F12, VK_F2, VK_F3, VK_F4, VK_F5, VK_F6, VK_F7, VK_F8,
    VK_F9, VK_HOME, VK_INSERT, VK_LEFT, VK_NEXT, VK_PRIOR, VK_RETURN, VK_RIGHT, VK_SPACE, VK_TAB,
    VK_UP,
};

#[test]
fn test_parse_alphanumeric_keys() {
    assert_eq!(parse_key_str("c"), Some('C' as u32));
    assert_eq!(parse_key_str("C"), Some('C' as u32));
    assert_eq!(parse_key_str("x"), Some('X' as u32));
    assert_eq!(parse_key_str("1"), Some('1' as u32));
}

#[test]
fn test_parse_special_keys() {
    assert_eq!(parse_key_str("F12"), Some(VK_F12 as u32));
    assert_eq!(parse_key_str("space"), Some(VK_SPACE as u32));
    assert_eq!(parse_key_str("Enter"), Some(VK_RETURN as u32));
    assert_eq!(parse_key_str("ESC"), Some(VK_ESCAPE as u32));
}

#[test]
fn test_modifiers_mask() {
    let mut cfg = AppConfig::default();
    cfg.ctrl = true;
    cfg.alt = true;
    cfg.shift = false;
    cfg.win = false;

    let mask = get_modifiers_mask(&cfg);
    assert_eq!(mask, MOD_NOREPEAT | MOD_CONTROL | MOD_ALT);
}

#[test]
fn every_named_key_parses_to_its_windows_code() {
    let table: Vec<(&str, u16)> = vec![
        ("F1", VK_F1), ("F2", VK_F2), ("F3", VK_F3), ("F4", VK_F4), ("F5", VK_F5), ("F6", VK_F6),
        ("F7", VK_F7), ("F8", VK_F8), ("F9", VK_F9), ("F10", VK_F10), ("F11", VK_F11),
        ("F12", VK_F12), ("SPACE", VK_SPACE), ("ENTER", VK_RETURN), ("RETURN", VK_RETURN),
        ("TAB", VK_TAB), ("ESC", VK_ESCAPE), ("ESCAPE", VK_ESCAPE), ("BACKSPACE", VK_BACK),
        ("BACK", VK_BACK), ("INSERT", VK_INSERT), ("DELETE", VK_DELETE), ("DEL", VK_DELETE),
        ("HOME", VK_HOME), ("END", VK_END), ("PAGEUP", VK_PRIOR), ("PGUP", VK_PRIOR),
        ("PAGEDOWN", VK_NEXT), ("PGDN", VK_NEXT), ("LEFT", VK_LEFT), ("UP", VK_UP),
        ("RIGHT", VK_RIGHT), ("DOWN", VK_DOWN),
    ];
    for (name, code) in table {
        assert_eq!(parse_key_str(name), Some(code as u32), "{}", name);
        assert_eq!(parse_key_str(&name.to_lowercase()), Some(code as u32), "{}", name);
    }
}

#[test]
fn library_codes_match_windows() {
    assert_eq!(k::VK_F1, VK_F1);
    assert_eq!(k::VK_F12, VK_F12);
    assert_eq!(k::VK_SPACE, VK_SPACE);
    assert_eq!(k::VK_RETURN, VK_RETURN);
    assert_eq!(k::VK_TAB, VK_TAB);
    assert_eq!(k::VK_ESCAPE, VK_ESCAPE);
    assert_eq!(k::VK_BACK, VK_BACK);
    assert_eq!(k::VK_INSERT, VK_INSERT);
    assert_eq!(k::VK_DELETE, VK_DELETE);
    assert_eq!(k::VK_HOME, VK_HOME);
    assert_eq!(k::VK_END, VK_END);
    assert_eq!(k::VK_PRIOR, VK_PRIOR);
    assert_eq!(k::VK_NEXT, VK_NEXT);
    assert_eq!(k::VK_LEFT, VK_LEFT);
    assert_eq!(k::VK_UP, VK_UP);
    assert_eq!(k::VK_RIGHT, VK_RIGHT);
    assert_eq!(k::VK_DOWN, VK_DOWN);
    assert_eq!(k::MOD_ALT, MOD_ALT);
    assert_eq!(k::MOD_CONTROL, MOD_CONTROL);
    assert_eq!(k::MOD_SHIFT, MOD_SHIFT);
    assert_eq!(k::MOD_WIN, MOD_WIN);
    assert_eq!(k::MOD_NOREPEAT, MOD_NOREPEAT);
}

#[test]
fn surrounding_whitespace_is_ignored() {
    assert_eq!(parse_key_str("  c\t"), Some('C' as u32));
    assert_eq!(parse_key_str("\n Enter \r\n"), Some(VK_RETURN as u32));
    assert_eq!(parse_key_str("\u{3000}F5\u{a0}"), Some(VK_F5 as u32));
}

#[test]
fn case_is_ignored_for_names() {
    assert_eq!(parse_key_str("pGdN"), parse_key_str("PGDN"));
    assert_eq!(parse_key_str("f7"), Some(VK_F7 as u32));
}

#[test]
fn unknown_or_empty_names_are_rejected() {
    assert_eq!(parse_key_str(""), None);
    assert_eq!(parse_key_str("   "), None);
    assert_eq!(parse_key_str("*"), None);
    assert_eq!(parse_key_str("F13"), None);
    assert_eq!(parse_key_str("CC"), None);
    assert_eq!(parse_key_str("é"), None);
    assert_eq!(parse_key_str("F 1"), None);
}

#[test]
fn each_modifier_sets_its_own_flag() {
    let mut cfg = AppConfig::default();
    cfg.ctrl = false;
    cfg.alt = false;
    assert_eq!(get_modifiers_mask(&cfg), MOD_NOREPEAT);
    cfg.shift = true;
    assert_eq!(get_modifiers_mask(&cfg), MOD_NOREPEAT | MOD_SHIFT);
    cfg.win = true;
    cfg.ctrl = true;
    cfg.alt = true;
    assert_eq!(get_modifiers_mask(&cfg), 0x400F);
}

#[test]
fn registration_of_a_known_key() {
    let cfg = AppConfig::default();
    assert_eq!(
        hotkey_registration(&cfg),
        Ok(HotkeyBinding { modifiers: MOD_NOREPEAT | MOD_CONTROL | MOD_ALT, key_code: 'C' as u32 })
    );
    assert_eq!(RECENTER_HOTKEY_ID, 1001);
}

#[test]
fn registration_of_an_unknown_key_explains_why() {
    let mut cfg = AppConfig::default();
    cfg.key = "Pause".to_string();
    assert_eq!(hotkey_registration(&cfg), Err("Unknown or invalid key name: 'Pause'".to_string()));
}

#[test]
fn registration_failure_names_the_hotkey() {
    let cfg = AppConfig::default();
    assert_eq!(
        registration_failure_message(&cfg),
        "Failed to register hotkey 'Ctrl + Alt + C'. It might already be in use by another application."
    );
}
