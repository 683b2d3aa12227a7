//! The settings dialog's logic: the trigger keys it offers, its initial
//! state from a configuration, and the validation of what the user entered.
use vstd::prelude::*;
use crate::config::AppConfig;
use crate::hotkey::{
    key_code_of, lemma_key_code_case_insensitive, lemma_named_key_codes, named_key_code,
    parse_key_str,
};
use crate::text::{
    ascii_upper, ascii_upper_seq, eq_ignore_ascii_case, is_ascii_alphanumeric, is_white_space,
    str_eq_ignore_ascii_case, trim, trim_end, trim_start,
};

verus! {

/// The dialog's width in pixels.
pub const SETTINGS_WIDTH: i32 = 420;

/// The dialog's height in pixels.
pub const SETTINGS_HEIGHT: i32 = 370;

/// The number of trigger keys the dialog offers.
pub const KEY_COUNT: usize = 59;

/// The trigger keys the dialog offers, in the order of its drop-down list.
pub open spec fn settings_keys() -> Seq<Seq<char>> {
    seq![
        "A"@, "B"@, "C"@, "D"@, "E"@, "F"@, "G"@, "H"@, "I"@, "J"@, "K"@, "L"@, "M"@, "N"@, "O"@,
        "P"@, "Q"@, "R"@, "S"@, "T"@, "U"@, "V"@, "W"@, "X"@, "Y"@, "Z"@, "0"@, "1"@, "2"@, "3"@,
        "4"@, "5"@, "6"@, "7"@, "8"@, "9"@, "F1"@, "F2"@, "F3"@, "F4"@, "F5"@, "F6"@, "F7"@,
        "F8"@, "F9"@, "F10"@, "F11"@, "F12"@, "Space"@, "Enter"@, "Tab"@, "Esc"@, "Backspace"@,
        "Insert"@, "Delete"@, "Home"@, "End"@, "PageUp"@, "PageDown"@,
    ]
}

/// The virtual-key codes of the offered trigger keys, in the same order.
pub open spec fn settings_key_codes() -> Seq<u32> {
    seq![
        0x41, 0x42, 0x43, 0x44, 0x45, 0x46, 0x47, 0x48, 0x49, 0x4A, 0x4B, 0x4C, 0x4D, 0x4E, 0x4F,
        0x50, 0x51, 0x52, 0x53, 0x54, 0x55, 0x56, 0x57, 0x58, 0x59, 0x5A, 0x30, 0x31, 0x32, 0x33,
        0x34, 0x35, 0x36, 0x37, 0x38, 0x39, 0x70, 0x71, 0x72, 0x73, 0x74, 0x75, 0x76, 0x77, 0x78,
        0x79, 0x7A, 0x7B, 0x20, 0x0D, 0x09, 0x1B, 0x08, 0x2D, 0x2E, 0x24, 0x23, 0x21, 0x22,
    ]
}

/// The position in the drop-down list of the key with a given code; -1 for
/// a code that no offered key has.
pub open spec fn settings_key_position(code: u32) -> int {
    if 0x41 <= code <= 0x5A {
        code - 0x41
    } else if 0x30 <= code <= 0x39 {
        code - 0x30 + 26
    } else if 0x70 <= code <= 0x7B {
        code - 0x70 + 36
    } else if code == 0x20 {
        48
    } else if code == 0x0D {
        49
    } else if code == 0x09 {
        50
    } else if code == 0x1B {
        51
    } else if code == 0x08 {
        52
    } else if code == 0x2D {
        53
    } else if code == 0x2E {
        54
    } else if code == 0x24 {
        55
    } else if code == 0x23 {
        56
    } else if code == 0x21 {
        57
    } else if code == 0x22 {
        58
    } else {
        -1
    }
}

/// The trigger keys the dialog offers, in the order of its drop-down list.
pub fn keys_list() -> (keys: Vec<&'static str>)
    ensures
        keys@.map_values(|k: &str| k@) == settings_keys(),
        keys@.len() == KEY_COUNT,
{
    let keys = vec![
        "A", "B", "C", "D", "E", "F", "G", "H", "I", "J", "K", "L", "M", "N", "O", "P", "Q", "R",
        "S", "T", "U", "V", "W", "X", "Y", "Z", "0", "1", "2", "3", "4", "5", "6", "7", "8", "9",
        "F1", "F2", "F3", "F4", "F5", "F6", "F7", "F8", "F9", "F10", "F11", "F12", "Space",
        "Enter", "Tab", "Esc", "Backspace", "Insert", "Delete", "Home", "End", "PageUp",
        "PageDown",
    ];
    assert(keys@.map_values(|k: &str| k@) =~= settings_keys());
    keys
}

/// The drop-down position shown for a configured key: the last offered key
/// equal to it up to ASCII case, or the first position when none is.
pub open spec fn last_listed_match(key: Seq<char>, n: int) -> Option<int>
    decreases n,
{
    if n <= 0 {
        None
    } else if eq_ignore_ascii_case(settings_keys()[n - 1], key) {
        Some(n - 1)
    } else {
        last_listed_match(key, n - 1)
    }
}

/// The drop-down position preselected for a configured key.
pub open spec fn selected_key_position(key: Seq<char>) -> int {
    match last_listed_match(key, KEY_COUNT as int) {
        Some(i) => i,
        None => 0,
    }
}

/// The drop-down position preselected for the configured key `key`.
pub fn initial_key_index(key: &str) -> (idx: usize)
    ensures
        idx == selected_key_position(key@),
        idx < KEY_COUNT,
{
    let keys = keys_list();
    let mut selected: usize = 0;
    let mut i: usize = 0;
    while i < keys.len()
        invariant
            keys@.map_values(|k: &str| k@) == settings_keys(),
            keys@.len() == KEY_COUNT,
            i <= keys@.len(),
            selected < KEY_COUNT,
            selected == match last_listed_match(key@, i as int) {
                Some(j) => j,
                None => 0,
            },
        decreases keys.len() - i,
    {
        assert(keys@.map_values(|k: &str| k@)[i as int] == keys@[i as int]@);
        if str_eq_ignore_ascii_case(keys[i], key) {
            selected = i;
        }
        i = i + 1;
    }
    selected
}

/// What the dialog shows when it opens.
#[derive(Debug, Clone, Copy, PartialEq, Eq, Structural)]
pub struct SettingsDialogState {
    pub ctrl: bool,
    pub alt: bool,
    pub shift: bool,
    pub win: bool,
    pub key_index: usize,
    pub move_window: bool,
    pub start_with_windows: bool,
}

/// The dialog's initial state for `cfg`: its modifiers and switches, its key
/// preselected, and the startup box ticked when either the configuration asks
/// for it or the program is already registered to start with Windows.
pub fn initial_dialog_state(cfg: &AppConfig, startup_registered: bool) -> (s:
    SettingsDialogState)
    ensures
        s.ctrl == cfg.ctrl,
        s.alt == cfg.alt,
        s.shift == cfg.shift,
        s.win == cfg.win,
        s.key_index == selected_key_position(cfg.key@),
        s.move_window == cfg.move_window,
        s.start_with_windows == (startup_registered || cfg.start_with_windows),
{
    SettingsDialogState {
        ctrl: cfg.ctrl,
        alt: cfg.alt,
        shift: cfg.shift,
        win: cfg.win,
        key_index: initial_key_index(cfg.key.as_str()),
        move_window: cfg.move_window,
        start_with_windows: startup_registered || cfg.start_with_windows,
    }
}

/// Where the dialog is placed to be centred on a screen of the given size.
pub fn dialog_position(screen_width: i32, screen_height: i32) -> (p: (i32, i32))
    requires
        screen_width >= i32::MIN + SETTINGS_WIDTH,
        screen_height >= i32::MIN + SETTINGS_HEIGHT,
    ensures
        p.0 == crate::monitor::half_toward_zero(screen_width - SETTINGS_WIDTH),
        p.1 == crate::monitor::half_toward_zero(screen_height - SETTINGS_HEIGHT),
        screen_width >= SETTINGS_WIDTH ==> 0 <= (screen_width - SETTINGS_WIDTH) - 2 * p.0 <= 1,
        screen_width < SETTINGS_WIDTH ==> -1 <= (screen_width - SETTINGS_WIDTH) - 2 * p.0 <= 0,
        screen_height >= SETTINGS_HEIGHT ==> 0 <= (screen_height - SETTINGS_HEIGHT) - 2 * p.1 <= 1,
        screen_height < SETTINGS_HEIGHT ==> -1 <= (screen_height - SETTINGS_HEIGHT) - 2 * p.1 <= 0,
{
    ((screen_width - SETTINGS_WIDTH) / 2, (screen_height - SETTINGS_HEIGHT) / 2)
}

/// What the user entered when pressing "Save & Apply": the boxes, the
/// drop-down position (negative when nothing is selected) and the switches.
#[derive(Debug, Clone, Copy, PartialEq, Eq, Structural)]
pub struct SettingsForm {
    pub ctrl: bool,
    pub alt: bool,
    pub shift: bool,
    pub win: bool,
    pub selected_key: isize,
    pub move_window: bool,
    pub start_with_windows: bool,
}

/// Why the entered settings are refused.
#[derive(Debug, Clone, Copy, PartialEq, Eq, Structural)]
pub enum SettingsError {
    /// No modifier key is ticked.
    NoModifier,
    /// No trigger key is selected.
    NoTriggerKey,
    /// The selected trigger key is not a key name that can be registered.
    UnparsableKey,
}

/// Checks the entered settings and builds the configuration to save: at least
/// one modifier must be ticked and a listed trigger key selected.
pub fn validate_settings(form: &SettingsForm) -> (r: Result<AppConfig, SettingsError>)
    ensures
        !(form.ctrl || form.alt || form.shift || form.win) ==> r == Err::<AppConfig, SettingsError>(SettingsError::NoModifier),
        (form.ctrl || form.alt || form.shift || form.win) && (form.selected_key < 0 || form.selected_key >= KEY_COUNT) ==> r == Err::<AppConfig, SettingsError>(SettingsError::NoTriggerKey),
        (form.ctrl || form.alt || form.shift || form.win) && 0 <= form.selected_key < KEY_COUNT ==> {
            &&& r is Ok
            &&& r->Ok_0.ctrl == form.ctrl
            &&& r->Ok_0.alt == form.alt
            &&& r->Ok_0.shift == form.shift
            &&& r->Ok_0.win == form.win
            &&& r->Ok_0.key@ == settings_keys()[form.selected_key as int]
            &&& r->Ok_0.move_window == form.move_window
            &&& r->Ok_0.start_with_windows == form.start_with_windows
        },
{
    if !form.ctrl && !form.alt && !form.shift && !form.win {
        return Err(SettingsError::NoModifier);
    }
    if form.selected_key < 0 || form.selected_key >= KEY_COUNT as isize {
        return Err(SettingsError::NoTriggerKey);
    }
    let keys = keys_list();
    let idx = form.selected_key as usize;
    assert(keys@.map_values(|k: &str| k@)[idx as int] == keys@[idx as int]@);
    let updated = AppConfig {
        ctrl: form.ctrl,
        alt: form.alt,
        shift: form.shift,
        win: form.win,
        key: String::from_str(keys[idx]),
        move_window: form.move_window,
        start_with_windows: form.start_with_windows,
    };
    if parse_key_str(updated.key.as_str()).is_none() {
        proof {
            lemma_settings_keys_parse();
        }
        return Err(SettingsError::UnparsableKey);
    }
    Ok(updated)
}

impl SettingsError {
    /// The text of the message box that reports the error.
    pub open spec fn message_text(self) -> Seq<char> {
        match self {
            SettingsError::NoModifier => "Please select at least one modifier key (Ctrl, Alt, Shift, or Win)."@,
            SettingsError::NoTriggerKey => "Please select a trigger key."@,
            SettingsError::UnparsableKey => "Selected key cannot be parsed as a valid Windows key."@,
        }
    }

    /// The title of the message box that reports the error.
    pub open spec fn title_text(self) -> Seq<char> {
        match self {
            SettingsError::NoModifier => "Invalid Hotkey"@,
            SettingsError::NoTriggerKey => "Invalid Key"@,
            SettingsError::UnparsableKey => "Invalid Key"@,
        }
    }

    /// The text of the message box that reports the error.
    pub fn message(&self) -> (m: String)
        ensures
            m@ == self.message_text(),
    {
        match self {
            SettingsError::NoModifier => String::from_str(
                "Please select at least one modifier key (Ctrl, Alt, Shift, or Win).",
            ),
            SettingsError::NoTriggerKey => String::from_str("Please select a trigger key."),
            SettingsError::UnparsableKey => String::from_str(
                "Selected key cannot be parsed as a valid Windows key.",
            ),
        }
    }

    /// The title of the message box that reports the error.
    pub fn title(&self) -> (t: String)
        ensures
            t@ == self.title_text(),
    {
        match self {
            SettingsError::NoModifier => String::from_str("Invalid Hotkey"),
            SettingsError::NoTriggerKey => String::from_str("Invalid Key"),
            SettingsError::UnparsableKey => String::from_str("Invalid Key"),
        }
    }
}

/// The message shown when the settings file cannot be written; `detail` is
/// the reason the write failed.
pub fn save_failure_message(detail: &str) -> (m: String)
    ensures
        m@ == "Failed to save configuration file:\n"@ + detail@,
{
    let mut m = String::from_str("Failed to save configuration file:\n");
    m.append(detail);
    m
}

/// A one-character key name that is an upper-case letter or a digit stands
/// for its character code.
proof fn lemma_single_char_key(s: Seq<char>)
    requires
        s.len() == 1,
        ('A' <= s[0] && s[0] <= 'Z') || ('0' <= s[0] && s[0] <= '9'),
    ensures
        key_code_of(s) == Some(s[0] as u32),
{
    assert(trim_start(s) == s);
    assert(trim_end(s) == s);
    assert(trim(s) == s);
    assert(ascii_upper(s[0]) == s[0]);
    assert(is_ascii_alphanumeric(s[0]));
}

/// A name of two or more characters without surrounding whitespace stands for
/// the named key that its upper-case spelling names.
proof fn lemma_named_key(s: Seq<char>, upper: Seq<char>)
    requires
        s.len() >= 2,
        !is_white_space(s[0]),
        !is_white_space(s.last()),
        ascii_upper_seq(s) =~= upper,
    ensures
        key_code_of(s) == named_key_code(upper),
{
    assert(trim_start(s) == s);
    assert(trim_end(s) == s);
    assert(trim(s) == s);
}

/// Every trigger key the dialog offers is a key name that `parse_key_str`
/// accepts, and it stands for the code at the same position.
pub proof fn lemma_settings_keys_parse()
    ensures
        settings_keys().len() == KEY_COUNT,
        settings_key_codes().len() == KEY_COUNT,
        forall|i: int|
            0 <= i < KEY_COUNT ==> key_code_of(#[trigger] settings_keys()[i]) == Some(
                settings_key_codes()[i],
            ),
{
    lemma_named_key_codes();
    assert forall|i: int| 0 <= i < KEY_COUNT implies key_code_of(#[trigger] settings_keys()[i])
        == Some(settings_key_codes()[i]) by {
        if i == 0 {
            reveal_strlit("A");
            lemma_single_char_key("A"@);
        } else if i == 1 {
            reveal_strlit("B");
            lemma_single_char_key("B"@);
        } else if i == 2 {
            reveal_strlit("C");
            lemma_single_char_key("C"@);
        } else if i == 3 {
            reveal_strlit("D");
            lemma_single_char_key("D"@);
        } else if i == 4 {
            reveal_strlit("E");
            lemma_single_char_key("E"@);
        } else if i == 5 {
            reveal_strlit("F");
            lemma_single_char_key("F"@);
        } else if i == 6 {
            reveal_strlit("G");
            lemma_single_char_key("G"@);
        } else if i == 7 {
            reveal_strlit("H");
            lemma_single_char_key("H"@);
        } else if i == 8 {
            reveal_strlit("I");
            lemma_single_char_key("I"@);
        } else if i == 9 {
            reveal_strlit("J");
            lemma_single_char_key("J"@);
        } else if i == 10 {
            reveal_strlit("K");
            lemma_single_char_key("K"@);
        } else if i == 11 {
            reveal_strlit("L");
            lemma_single_char_key("L"@);
        } else if i == 12 {
            reveal_strlit("M");
            lemma_single_char_key("M"@);
        } else if i == 13 {
            reveal_strlit("N");
            lemma_single_char_key("N"@);
        } else if i == 14 {
            reveal_strlit("O");
            lemma_single_char_key("O"@);
        } else if i == 15 {
            reveal_strlit("P");
            lemma_single_char_key("P"@);
        } else if i == 16 {
            reveal_strlit("Q");
            lemma_single_char_key("Q"@);
        } else if i == 17 {
            reveal_strlit("R");
            lemma_single_char_key("R"@);
        } else if i == 18 {
            reveal_strlit("S");
            lemma_single_char_key("S"@);
        } else if i == 19 {
            reveal_strlit("T");
            lemma_single_char_key("T"@);
        } else if i == 20 {
            reveal_strlit("U");
            lemma_single_char_key("U"@);
        } else if i == 21 {
            reveal_strlit("V");
            lemma_single_char_key("V"@);
        } else if i == 22 {
            reveal_strlit("W");
            lemma_single_char_key("W"@);
        } else if i == 23 {
            reveal_strlit("X");
            lemma_single_char_key("X"@);
        } else if i == 24 {
            reveal_strlit("Y");
            lemma_single_char_key("Y"@);
        } else if i == 25 {
            reveal_strlit("Z");
            lemma_single_char_key("Z"@);
        } else if i == 26 {
            reveal_strlit("0");
            lemma_single_char_key("0"@);
        } else if i == 27 {
            reveal_strlit("1");
            lemma_single_char_key("1"@);
        } else if i == 28 {
            reveal_strlit("2");
            lemma_single_char_key("2"@);
        } else if i == 29 {
            reveal_strlit("3");
            lemma_single_char_key("3"@);
        } else if i == 30 {
            reveal_strlit("4");
            lemma_single_char_key("4"@);
        } else if i == 31 {
            reveal_strlit("5");
            lemma_single_char_key("5"@);
        } else if i == 32 {
            reveal_strlit("6");
            lemma_single_char_key("6"@);
        } else if i == 33 {
            reveal_strlit("7");
            lemma_single_char_key("7"@);
        } else if i == 34 {
            reveal_strlit("8");
            lemma_single_char_key("8"@);
        } else if i == 35 {
            reveal_strlit("9");
            lemma_single_char_key("9"@);
        } else if i == 36 {
            reveal_strlit("F1");
            lemma_named_key("F1"@, "F1"@);
        } else if i == 37 {
            reveal_strlit("F2");
            lemma_named_key("F2"@, "F2"@);
        } else if i == 38 {
            reveal_strlit("F3");
            lemma_named_key("F3"@, "F3"@);
        } else if i == 39 {
            reveal_strlit("F4");
            lemma_named_key("F4"@, "F4"@);
        } else if i == 40 {
            reveal_strlit("F5");
            lemma_named_key("F5"@, "F5"@);
        } else if i == 41 {
            reveal_strlit("F6");
            lemma_named_key("F6"@, "F6"@);
        } else if i == 42 {
            reveal_strlit("F7");
            lemma_named_key("F7"@, "F7"@);
        } else if i == 43 {
            reveal_strlit("F8");
            lemma_named_key("F8"@, "F8"@);
        } else if i == 44 {
            reveal_strlit("F9");
            lemma_named_key("F9"@, "F9"@);
        } else if i == 45 {
            reveal_strlit("F10");
            lemma_named_key("F10"@, "F10"@);
        } else if i == 46 {
            reveal_strlit("F11");
            lemma_named_key("F11"@, "F11"@);
        } else if i == 47 {
            reveal_strlit("F12");
            lemma_named_key("F12"@, "F12"@);
        } else if i == 48 {
            reveal_strlit("Space");
            reveal_strlit("SPACE");
            lemma_named_key("Space"@, "SPACE"@);
        } else if i == 49 {
            reveal_strlit("Enter");
            reveal_strlit("ENTER");
            lemma_named_key("Enter"@, "ENTER"@);
        } else if i == 50 {
            reveal_strlit("Tab");
            reveal_strlit("TAB");
            lemma_named_key("Tab"@, "TAB"@);
        } else if i == 51 {
            reveal_strlit("Esc");
            reveal_strlit("ESC");
            lemma_named_key("Esc"@, "ESC"@);
        } else if i == 52 {
            reveal_strlit("Backspace");
            reveal_strlit("BACKSPACE");
            lemma_named_key("Backspace"@, "BACKSPACE"@);
        } else if i == 53 {
            reveal_strlit("Insert");
            reveal_strlit("INSERT");
            lemma_named_key("Insert"@, "INSERT"@);
        } else if i == 54 {
            reveal_strlit("Delete");
            reveal_strlit("DELETE");
            lemma_named_key("Delete"@, "DELETE"@);
        } else if i == 55 {
            reveal_strlit("Home");
            reveal_strlit("HOME");
            lemma_named_key("Home"@, "HOME"@);
        } else if i == 56 {
            reveal_strlit("End");
            reveal_strlit("END");
            lemma_named_key("End"@, "END"@);
        } else if i == 57 {
            reveal_strlit("PageUp");
            reveal_strlit("PAGEUP");
            lemma_named_key("PageUp"@, "PAGEUP"@);
        } else if i == 58 {
            reveal_strlit("PageDown");
            reveal_strlit("PAGEDOWN");
            lemma_named_key("PageDown"@, "PAGEDOWN"@);
        }
    }
}

/// The offered trigger keys stand for pairwise different virtual keys.
pub proof fn lemma_settings_key_codes_distinct()
    ensures
        forall|i: int, j: int|
            0 <= i < KEY_COUNT && 0 <= j < KEY_COUNT && i != j ==> #[trigger] settings_key_codes()[i]
                != #[trigger] settings_key_codes()[j],
{
    assert forall|i: int| 0 <= i < KEY_COUNT implies settings_key_position(
        #[trigger] settings_key_codes()[i],
    ) == i by {
    }
}

/// No two offered trigger keys are equal up to ASCII case.
pub proof fn lemma_settings_keys_distinct_ignoring_case(i: int, j: int)
    requires
        0 <= i < KEY_COUNT,
        0 <= j < KEY_COUNT,
        eq_ignore_ascii_case(settings_keys()[i], settings_keys()[j]),
    ensures
        i == j,
{
    lemma_settings_keys_parse();
    lemma_settings_key_codes_distinct();
    lemma_key_code_case_insensitive(settings_keys()[i], settings_keys()[j]);
}

proof fn lemma_last_listed_match_is(key: Seq<char>, i: int, n: int)
    requires
        0 <= i < n <= KEY_COUNT,
        eq_ignore_ascii_case(settings_keys()[i], key),
    ensures
        last_listed_match(key, n) == Some(i),
    decreases n,
{
    if n - 1 != i {
        if eq_ignore_ascii_case(settings_keys()[n - 1], key) {
            lemma_settings_keys_distinct_ignoring_case(i, n - 1);
        }
        lemma_last_listed_match_is(key, i, n - 1);
    }
}

/// A configured key that is one of the offered keys, up to ASCII case, is
/// preselected at that key's position when the dialog opens; in particular a
/// key saved from the dialog is shown again as it was chosen.
pub proof fn lemma_listed_key_preselected(key: Seq<char>, i: int)
    requires
        0 <= i < KEY_COUNT,
        eq_ignore_ascii_case(settings_keys()[i], key),
    ensures
        selected_key_position(key) == i,
{
    lemma_last_listed_match_is(key, i, KEY_COUNT as int);
}

proof fn lemma_last_listed_match_none(key: Seq<char>, n: int)
    requires
        0 <= n <= KEY_COUNT,
        forall|i: int| 0 <= i < n ==> !eq_ignore_ascii_case(#[trigger] settings_keys()[i], key),
    ensures
        last_listed_match(key, n) == None::<int>,
    decreases n,
{
    if n > 0 {
        lemma_last_listed_match_none(key, n - 1);
    }
}

/// A configured key that is none of the offered keys, even ignoring ASCII
/// case, leaves the first entry of the drop-down list preselected.
pub proof fn lemma_unlisted_key_preselects_first(key: Seq<char>)
    requires
        forall|i: int|
            0 <= i < KEY_COUNT ==> !eq_ignore_ascii_case(#[trigger] settings_keys()[i], key),
    ensures
        selected_key_position(key) == 0,
{
    lemma_last_listed_match_none(key, KEY_COUNT as int);
}

} // verus!
