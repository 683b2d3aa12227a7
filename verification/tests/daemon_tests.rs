use recenter_mouse::daemon::{
    handle_message, launch_mode, parse_cli, CliOptions, LaunchMode, MessageAction, WM_COMMAND,
    WM_CONTEXTMENU, WM_DESTROY, WM_HOTKEY, WM_LBUTTONDBLCLK, WM_LBUTTONUP, WM_RBUTTONUP,
};
use recenter_mouse::tray::{WM_APP_RELOAD_CONFIG, WM_APP_TRAY_MSG};
use windows_sys::Win32::UI::WindowsAndMessaging as w;

fn args(list: &[&str]) -> Vec<String> {
    let mut v = vec!["recenter-mouse.exe".to_string()];
    v.extend(list.iter().map(|s| s.to_string()));
    v
}

fn opts(once: bool, settings: bool, headless: bool, help: bool) -> CliOptions {
    CliOptions { once, settings, headless, help }
}

#[test]
fn window_messages_match_windows() {
    assert_eq!(WM_COMMAND, w::WM_COMMAND);
    assert_eq!(WM_CONTEXTMENU, w::WM_CONTEXTMENU);
    assert_eq!(WM_DESTROY, w::WM_DESTROY);
    assert_eq!(WM_HOTKEY, w::WM_HOTKEY);
    assert_eq!(WM_LBUTTONDBLCLK, w::WM_LBUTTONDBLCLK);
    assert_eq!(WM_LBUTTONUP, w::WM_LBUTTONUP);
    assert_eq!(WM_RBUTTONUP, w::WM_RBUTTONUP);
}

#[test]
fn no_arguments_give_no_options() {
    assert_eq!(parse_cli(&args(&[])), opts(false, false, false, false));
    assert_eq!(parse_cli(&Vec::new()), opts(false, false, false, false));
}

#[test]
fn short_and_long_spellings() {
    assert_eq!(parse_cli(&args(&["-o"])), opts(true, false, false, false));
    assert_eq!(parse_cli(&args(&["--once"])), opts(true, false, false, false));
    assert_eq!(parse_cli(&args(&["-s", "--headless"])), opts(false, true, true, false));
    assert_eq!(parse_cli(&args(&["--settings", "bogus"])), opts(false, true, false, false));
}

#[test]
fn program_name_is_not_an_option() {
    assert_eq!(parse_cli(&vec!["--once".to_string()]), opts(false, false, false, false));
}

#[test]
fn reading_stops_at_help() {
    assert_eq!(parse_cli(&args(&["-o", "-h", "--settings"])), opts(true, false, false, true));
    assert_eq!(parse_cli(&args(&["--help", "--once"])), opts(false, false, false, true));
}

#[test]
fn launch_modes() {
    assert_eq!(launch_mode(&opts(true, true, true, true), false), LaunchMode::ShowHelp);
    assert_eq!(launch_mode(&opts(true, false, false, false), true), LaunchMode::RecenterOnce);
    assert_eq!(launch_mode(&opts(false, true, false, false), true), LaunchMode::SettingsOnly);
    assert_eq!(launch_mode(&opts(false, false, false, false), true), LaunchMode::Exit);
    assert_eq!(
        launch_mode(&opts(false, true, true, false), false),
        LaunchMode::Run { tray_icon: false, open_settings: true }
    );
    assert_eq!(
        launch_mode(&opts(false, false, false, false), false),
        LaunchMode::Run { tray_icon: true, open_settings: false }
    );
}

#[test]
fn hotkey_message_recenters() {
    assert_eq!(handle_message(WM_HOTKEY, 1001, 0, false), MessageAction::Recenter);
    assert_eq!(handle_message(WM_HOTKEY, 7, 0, false), MessageAction::Ignore);
}

#[test]
fn tray_clicks() {
    assert_eq!(handle_message(WM_APP_TRAY_MSG, 1, WM_RBUTTONUP as isize, false), MessageAction::ShowTrayMenu);
    assert_eq!(handle_message(WM_APP_TRAY_MSG, 1, WM_CONTEXTMENU as isize, false), MessageAction::ShowTrayMenu);
    assert_eq!(handle_message(WM_APP_TRAY_MSG, 1, WM_LBUTTONUP as isize, false), MessageAction::Recenter);
    assert_eq!(handle_message(WM_APP_TRAY_MSG, 1, WM_LBUTTONDBLCLK as isize, false), MessageAction::Recenter);
    assert_eq!(handle_message(WM_APP_TRAY_MSG, 1, 0x200, false), MessageAction::Ignore);
}

#[test]
fn menu_commands() {
    assert_eq!(handle_message(WM_COMMAND, 101, 0, false), MessageAction::Recenter);
    assert_eq!(handle_message(WM_COMMAND, 102, 0, false), MessageAction::ToggleMoveWindow);
    assert_eq!(handle_message(WM_COMMAND, 103, 0, false), MessageAction::OpenSettings);
    assert_eq!(handle_message(WM_COMMAND, 104, 0, false), MessageAction::ToggleStartup);
    assert_eq!(handle_message(WM_COMMAND, 105, 0, false), MessageAction::CloseWindow);
    assert_eq!(handle_message(WM_COMMAND, 0x1_0065, 0, false), MessageAction::Recenter);
    assert_eq!(handle_message(WM_COMMAND, 106, 0, false), MessageAction::Ignore);
}

#[test]
fn reload_and_destroy_respect_headless() {
    assert_eq!(handle_message(WM_APP_RELOAD_CONFIG, 0, 0, false), MessageAction::ReloadConfig { update_tray: true });
    assert_eq!(handle_message(WM_APP_RELOAD_CONFIG, 0, 0, true), MessageAction::ReloadConfig { update_tray: false });
    assert_eq!(handle_message(WM_DESTROY, 0, 0, true), MessageAction::Shutdown { remove_tray: false });
    assert_eq!(handle_message(WM_DESTROY, 0, 0, false), MessageAction::Shutdown { remove_tray: true });
}

#[test]
fn other_messages_go_to_the_default_procedure() {
    assert_eq!(handle_message(0x000F, 0, 0, false), MessageAction::Default);
}
