use recenter_mouse::config::AppConfig;
use recenter_mouse::tray::{
    tip_buffer, tray_menu, tray_tooltip, MenuEntry, ID_TRAY_EXIT, ID_TRAY_RECENTER,
    ID_TRAY_SETTINGS, ID_TRAY_TOGGLE_STARTUP, ID_TRAY_TOGGLE_WINDOW, TIP_CAPACITY,
    WM_APP_RELOAD_CONFIG, WM_APP_TRAY_MSG,
};

#[test]
fn tooltip_shows_the_hotkey() {
    assert_eq!(tray_tooltip(&AppConfig::default()), "Recenter Mouse (Ctrl + Alt + C)");
}

#[test]
fn short_tip_is_copied_and_zero_filled() {
    let wide: Vec<u16> = "Hi".encode_utf16().chain(std::iter::once(0)).collect();
    let buf = tip_buffer(&wide);
    assert_eq!(buf.len(), TIP_CAPACITY);
    assert_eq!(&buf[..3], &[72, 105, 0]);
    assert!(buf[3..].iter().all(|&u| u == 0));
}

#[test]
fn long_tip_is_cut_before_the_last_unit() {
    let wide: Vec<u16> = (1..=300).collect();
    let buf = tip_buffer(&wide);
    assert_eq!(buf.len(), 128);
    assert_eq!(buf[126], 127);
    assert_eq!(buf[127], 0);
    assert_eq!(TIP_CAPACITY, 128);
}

#[test]
fn message_numbers_match_windows() {
    let app = windows_sys::Win32::UI::WindowsAndMessaging::WM_APP;
    assert_eq!(recenter_mouse::tray::WM_APP, app);
    assert_eq!(WM_APP_TRAY_MSG, app + 1);
    assert_eq!(WM_APP_RELOAD_CONFIG, app + 2);
}

fn item(e: &MenuEntry) -> (usize, String, Option<bool>, bool) {
    match e {
        MenuEntry::Item { id, label, checked, is_default } => (*id, label.clone(), *checked, *is_default),
        MenuEntry::Separator => panic!("expected an item"),
    }
}

#[test]
fn menu_lists_the_commands_with_their_ticks() {
    let mut cfg = AppConfig::default();
    cfg.start_with_windows = true;
    let menu = tray_menu(&cfg);
    assert_eq!(menu.len(), 7);
    assert_eq!(item(&menu[0]), (ID_TRAY_RECENTER, "Recenter Now (Ctrl + Alt + C)".to_string(), None, true));
    assert!(matches!(menu[1], MenuEntry::Separator));
    assert_eq!(item(&menu[2]), (ID_TRAY_TOGGLE_WINDOW, "Move Active Window".to_string(), Some(true), false));
    assert_eq!(item(&menu[3]), (ID_TRAY_SETTINGS, "Settings & Key Bindings...".to_string(), None, false));
    assert_eq!(item(&menu[4]), (ID_TRAY_TOGGLE_STARTUP, "Start with Windows".to_string(), Some(true), false));
    assert!(matches!(menu[5], MenuEntry::Separator));
    assert_eq!(item(&menu[6]), (ID_TRAY_EXIT, "Exit".to_string(), None, false));
    assert_eq!((ID_TRAY_RECENTER, ID_TRAY_TOGGLE_WINDOW, ID_TRAY_SETTINGS, ID_TRAY_TOGGLE_STARTUP, ID_TRAY_EXIT), (101, 102, 103, 104, 105));
}

#[test]
fn menu_ticks_follow_the_switches() {
    let mut cfg = AppConfig::default();
    cfg.move_window = false;
    let menu = tray_menu(&cfg);
    assert_eq!(item(&menu[2]).2, Some(false));
    assert_eq!(item(&menu[4]).2, Some(false));
}
