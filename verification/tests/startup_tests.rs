use recenter_mouse::startup::{
    open_failure_message, registry_write_outcome, startup_command, startup_enabled_from,
    ERROR_FILE_NOT_FOUND, ERROR_SUCCESS,
};

#[test]
fn status_codes_match_windows() {
    assert_eq!(ERROR_SUCCESS, windows_sys::Win32::Foundation::ERROR_SUCCESS);
    assert_eq!(ERROR_FILE_NOT_FOUND, windows_sys::Win32::Foundation::ERROR_FILE_NOT_FOUND);
}

#[test]
fn startup_is_enabled_only_with_a_nonempty_value() {
    assert!(startup_enabled_from(0, 0, 12));
    assert!(!startup_enabled_from(0, 0, 0));
    assert!(!startup_enabled_from(0, 2, 12));
    assert!(!startup_enabled_from(5, 0, 12));
}

#[test]
fn startup_command_quotes_the_path() {
    assert_eq!(startup_command("C:\\Tools\\recenter-mouse.exe"), "\"C:\\Tools\\recenter-mouse.exe\"");
}

#[test]
fn open_failure_names_the_code() {
    assert_eq!(open_failure_message(5), "Failed to open registry key: error code 5");
    assert_eq!(open_failure_message(0), "Failed to open registry key: error code 0");
    assert_eq!(open_failure_message(4294967295), "Failed to open registry key: error code 4294967295");
}

#[test]
fn write_outcomes() {
    assert_eq!(registry_write_outcome(true, 0), Ok(()));
    assert_eq!(registry_write_outcome(false, 0), Ok(()));
    assert_eq!(registry_write_outcome(false, 2), Ok(()));
    assert_eq!(registry_write_outcome(true, 2), Err("Registry operation failed with code 2".to_string()));
    assert_eq!(registry_write_outcome(false, 1234), Err("Registry operation failed with code 1234".to_string()));
}
