//! Trigger-key names, the Win32 virtual-key codes they stand for, and the
//! hotkey registration request built from a configuration.
use vstd::prelude::*;
use crate::config::AppConfig;
use crate::text::{
    all_white_space, ascii_upper, ascii_upper_chars, ascii_upper_seq, char_ascii_upper,
    chars_equal_str, chars_of, eq_ignore_ascii_case, is_ascii_alphanumeric, trim, trim_chars,
    is_white_space, lemma_ascii_upper_seq_idempotent, lemma_ascii_upper_white_space,
    lemma_trim_ascii_upper, lemma_trim_surrounding_white_space, trim_end, trim_start,
};

verus! {

// Win32 virtual-key codes (`VIRTUAL_KEY`) of the named trigger keys.
pub const VK_BACK: u16 = 0x08;
pub const VK_TAB: u16 = 0x09;
pub const VK_RETURN: u16 = 0x0D;
pub const VK_ESCAPE: u16 = 0x1B;
pub const VK_SPACE: u16 = 0x20;
pub const VK_PRIOR: u16 = 0x21;
pub const VK_NEXT: u16 = 0x22;
pub const VK_END: u16 = 0x23;
pub const VK_HOME: u16 = 0x24;
pub const VK_LEFT: u16 = 0x25;
pub const VK_UP: u16 = 0x26;
pub const VK_RIGHT: u16 = 0x27;
pub const VK_DOWN: u16 = 0x28;
pub const VK_INSERT: u16 = 0x2D;
pub const VK_DELETE: u16 = 0x2E;
pub const VK_F1: u16 = 0x70;
pub const VK_F2: u16 = 0x71;
pub const VK_F3: u16 = 0x72;
pub const VK_F4: u16 = 0x73;
pub const VK_F5: u16 = 0x74;
pub const VK_F6: u16 = 0x75;
pub const VK_F7: u16 = 0x76;
pub const VK_F8: u16 = 0x77;
pub const VK_F9: u16 = 0x78;
pub const VK_F10: u16 = 0x79;
pub const VK_F11: u16 = 0x7A;
pub const VK_F12: u16 = 0x7B;

// Win32 hotkey modifier flags (`HOT_KEY_MODIFIERS`).
pub const MOD_ALT: u32 = 0x0001;
pub const MOD_CONTROL: u32 = 0x0002;
pub const MOD_SHIFT: u32 = 0x0004;
pub const MOD_WIN: u32 = 0x0008;
pub const MOD_NOREPEAT: u32 = 0x4000;

/// The identifier under which the recenter hotkey is registered.
pub const RECENTER_HOTKEY_ID: i32 = 1001;

/// The virtual-key code of a named key, given in upper case.
pub open spec fn named_key_code(name: Seq<char>) -> Option<u32> {
    if name == "F1"@ {
        Some(VK_F1 as u32)
    } else if name == "F2"@ {
        Some(VK_F2 as u32)
    } else if name == "F3"@ {
        Some(VK_F3 as u32)
    } else if name == "F4"@ {
        Some(VK_F4 as u32)
    } else if name == "F5"@ {
        Some(VK_F5 as u32)
    } else if name == "F6"@ {
        Some(VK_F6 as u32)
    } else if name == "F7"@ {
        Some(VK_F7 as u32)
    } else if name == "F8"@ {
        Some(VK_F8 as u32)
    } else if name == "F9"@ {
        Some(VK_F9 as u32)
    } else if name == "F10"@ {
        Some(VK_F10 as u32)
    } else if name == "F11"@ {
        Some(VK_F11 as u32)
    } else if name == "F12"@ {
        Some(VK_F12 as u32)
    } else if name == "SPACE"@ {
        Some(VK_SPACE as u32)
    } else if name == "ENTER"@ {
        Some(VK_RETURN as u32)
    } else if name == "RETURN"@ {
        Some(VK_RETURN as u32)
    } else if name == "TAB"@ {
        Some(VK_TAB as u32)
    } else if name == "ESC"@ {
        Some(VK_ESCAPE as u32)
    } else if name == "ESCAPE"@ {
        Some(VK_ESCAPE as u32)
    } else if name == "BACKSPACE"@ {
        Some(VK_BACK as u32)
    } else if name == "BACK"@ {
        Some(VK_BACK as u32)
    } else if name == "INSERT"@ {
        Some(VK_INSERT as u32)
    } else if name == "DELETE"@ {
        Some(VK_DELETE as u32)
    } else if name == "DEL"@ {
        Some(VK_DELETE as u32)
    } else if name == "HOME"@ {
        Some(VK_HOME as u32)
    } else if name == "END"@ {
        Some(VK_END as u32)
    } else if name == "PAGEUP"@ {
        Some(VK_PRIOR as u32)
    } else if name == "PGUP"@ {
        Some(VK_PRIOR as u32)
    } else if name == "PAGEDOWN"@ {
        Some(VK_NEXT as u32)
    } else if name == "PGDN"@ {
        Some(VK_NEXT as u32)
    } else if name == "LEFT"@ {
        Some(VK_LEFT as u32)
    } else if name == "UP"@ {
        Some(VK_UP as u32)
    } else if name == "RIGHT"@ {
        Some(VK_RIGHT as u32)
    } else if name == "DOWN"@ {
        Some(VK_DOWN as u32)
    } else {
        None
    }
}

/// The virtual-key code that a key name stands for. Surrounding whitespace
/// and ASCII case do not matter. A single ASCII letter or digit stands for
/// its upper-case character code; otherwise the name must be one of the
/// named keys (F1..F12, Space, Enter/Return, Tab, Esc/Escape,
/// Backspace/Back, Insert, Delete/Del, Home, End, PageUp/PgUp,
/// PageDown/PgDn, Left, Up, Right, Down).
pub open spec fn key_code_of(key: Seq<char>) -> Option<u32> {
    let t = trim(key);
    if t.len() == 0 {
        None
    } else if t.len() == 1 && (t[0] as u32) < 128 && is_ascii_alphanumeric(ascii_upper(t[0])) {
        Some(ascii_upper(t[0]) as u32)
    } else {
        named_key_code(ascii_upper_seq(t))
    }
}

/// The Win32 modifier flags of a hotkey: always `MOD_NOREPEAT`, plus one
/// flag for each enabled modifier key.
pub open spec fn modifier_mask(ctrl: bool, alt: bool, shift: bool, win: bool) -> u32 {
    MOD_NOREPEAT | (if ctrl {
        MOD_CONTROL
    } else {
        0u32
    }) | (if alt {
        MOD_ALT
    } else {
        0u32
    }) | (if shift {
        MOD_SHIFT
    } else {
        0u32
    }) | (if win {
        MOD_WIN
    } else {
        0u32
    })
}

/// The virtual-key code of a named key given in upper case.
fn named_key_code_of(name: &Vec<char>) -> (code: Option<u32>)
    ensures
        code == named_key_code(name@),
{
    if chars_equal_str(name, "F1") {
        return Some(VK_F1 as u32);
    }
    if chars_equal_str(name, "F2") {
        return Some(VK_F2 as u32);
    }
    if chars_equal_str(name, "F3") {
        return Some(VK_F3 as u32);
    }
    if chars_equal_str(name, "F4") {
        return Some(VK_F4 as u32);
    }
    if chars_equal_str(name, "F5") {
        return Some(VK_F5 as u32);
    }
    if chars_equal_str(name, "F6") {
        return Some(VK_F6 as u32);
    }
    if chars_equal_str(name, "F7") {
        return Some(VK_F7 as u32);
    }
    if chars_equal_str(name, "F8") {
        return Some(VK_F8 as u32);
    }
    if chars_equal_str(name, "F9") {
        return Some(VK_F9 as u32);
    }
    if chars_equal_str(name, "F10") {
        return Some(VK_F10 as u32);
    }
    if chars_equal_str(name, "F11") {
        return Some(VK_F11 as u32);
    }
    if chars_equal_str(name, "F12") {
        return Some(VK_F12 as u32);
    }
    if chars_equal_str(name, "SPACE") {
        return Some(VK_SPACE as u32);
    }
    if chars_equal_str(name, "ENTER") {
        return Some(VK_RETURN as u32);
    }
    if chars_equal_str(name, "RETURN") {
        return Some(VK_RETURN as u32);
    }
    if chars_equal_str(name, "TAB") {
        return Some(VK_TAB as u32);
    }
    if chars_equal_str(name, "ESC") {
        return Some(VK_ESCAPE as u32);
    }
    if chars_equal_str(name, "ESCAPE") {
        return Some(VK_ESCAPE as u32);
    }
    if chars_equal_str(name, "BACKSPACE") {
        return Some(VK_BACK as u32);
    }
    if chars_equal_str(name, "BACK") {
        return Some(VK_BACK as u32);
    }
    if chars_equal_str(name, "INSERT") {
        return Some(VK_INSERT as u32);
    }
    if chars_equal_str(name, "DELETE") {
        return Some(VK_DELETE as u32);
    }
    if chars_equal_str(name, "DEL") {
        return Some(VK_DELETE as u32);
    }
    if chars_equal_str(name, "HOME") {
        return Some(VK_HOME as u32);
    }
    if chars_equal_str(name, "END") {
        return Some(VK_END as u32);
    }
    if chars_equal_str(name, "PAGEUP") {
        return Some(VK_PRIOR as u32);
    }
    if chars_equal_str(name, "PGUP") {
        return Some(VK_PRIOR as u32);
    }
    if chars_equal_str(name, "PAGEDOWN") {
        return Some(VK_NEXT as u32);
    }
    if chars_equal_str(name, "PGDN") {
        return Some(VK_NEXT as u32);
    }
    if chars_equal_str(name, "LEFT") {
        return Some(VK_LEFT as u32);
    }
    if chars_equal_str(name, "UP") {
        return Some(VK_UP as u32);
    }
    if chars_equal_str(name, "RIGHT") {
        return Some(VK_RIGHT as u32);
    }
    if chars_equal_str(name, "DOWN") {
        return Some(VK_DOWN as u32);
    }
    None
}

/// Converts a key name such as `C`, `F12` or `Space` into its Win32
/// virtual-key code; `None` when the name is empty or unknown.
pub fn parse_key_str(key: &str) -> (code: Option<u32>)
    ensures
        code == key_code_of(key@),
{
    let trimmed = trim_chars(&chars_of(key));
    if trimmed.len() == 0 {
        return None;
    }
    // A trimmed text of one byte is a single ASCII character.
    if trimmed.len() == 1 && (trimmed[0] as u32) < 128 {
        let ch = char_ascii_upper(trimmed[0]);
        if (ch >= '0' && ch <= '9') || (ch >= 'A' && ch <= 'Z') || (ch >= 'a' && ch <= 'z') {
            return Some(ch as u32);
        }
    }
    let upper = ascii_upper_chars(&trimmed);
    named_key_code_of(&upper)
}

/// Key names are not case sensitive: upper-casing the ASCII letters of a key
/// name does not change the key it stands for.
pub proof fn lemma_key_code_ignores_ascii_case(key: Seq<char>)
    ensures
        key_code_of(ascii_upper_seq(key)) == key_code_of(key),
{
    let t = trim(key);
    lemma_trim_ascii_upper(key);
    let u = ascii_upper_seq(t);
    assert(trim(ascii_upper_seq(key)) == u);
    lemma_ascii_upper_seq_idempotent(t);
    if t.len() > 0 {
        lemma_ascii_upper_white_space(t[0]);
        assert(u[0] == ascii_upper(t[0]));
    }
}

/// Two key names that differ only in the case of ASCII letters stand for the
/// same key.
pub proof fn lemma_key_code_case_insensitive(a: Seq<char>, b: Seq<char>)
    requires
        eq_ignore_ascii_case(a, b),
    ensures
        key_code_of(a) == key_code_of(b),
{
    lemma_key_code_ignores_ascii_case(a);
    lemma_key_code_ignores_ascii_case(b);
}

/// Whitespace before and after a key name does not change the key it stands
/// for.
pub proof fn lemma_key_code_ignores_surrounding_white_space(
    before: Seq<char>,
    key: Seq<char>,
    after: Seq<char>,
)
    requires
        all_white_space(before),
        all_white_space(after),
    ensures
        key_code_of(before + key + after) == key_code_of(key),
{
    lemma_trim_surrounding_white_space(before, key, after);
}

/// A name of two or more characters, without surrounding whitespace and
/// already in upper case, is looked up as it stands.
proof fn lemma_plain_name(s: Seq<char>)
    requires
        s.len() >= 2,
        !is_white_space(s[0]),
        !is_white_space(s.last()),
        ascii_upper_seq(s) =~= s,
    ensures
        key_code_of(s) == named_key_code(s),
{
    assert(trim_start(s) == s);
    assert(trim_end(s) == s);
}

/// Every key name stands for its Win32 virtual-key code: F1..F12 for
/// 0x70..0x7B, SPACE for 0x20, ENTER and RETURN for 0x0D, TAB for 0x09, ESC and
/// ESCAPE for 0x1B, BACKSPACE and BACK for 0x08, INSERT for 0x2D, DELETE and
/// DEL for 0x2E, HOME for 0x24, END for 0x23, PAGEUP and PGUP for 0x21,
/// PAGEDOWN and PGDN for 0x22, LEFT, UP, RIGHT and DOWN for 0x25..0x28.
pub proof fn lemma_named_key_codes()
    ensures
        named_key_code("F1"@) == Some(0x70u32),
        named_key_code("F2"@) == Some(0x71u32),
        named_key_code("F3"@) == Some(0x72u32),
        named_key_code("F4"@) == Some(0x73u32),
        named_key_code("F5"@) == Some(0x74u32),
        named_key_code("F6"@) == Some(0x75u32),
        named_key_code("F7"@) == Some(0x76u32),
        named_key_code("F8"@) == Some(0x77u32),
        named_key_code("F9"@) == Some(0x78u32),
        named_key_code("F10"@) == Some(0x79u32),
        named_key_code("F11"@) == Some(0x7Au32),
        named_key_code("F12"@) == Some(0x7Bu32),
        named_key_code("SPACE"@) == Some(0x20u32),
        named_key_code("ENTER"@) == Some(0x0Du32),
        named_key_code("RETURN"@) == Some(0x0Du32),
        named_key_code("TAB"@) == Some(0x09u32),
        named_key_code("ESC"@) == Some(0x1Bu32),
        named_key_code("ESCAPE"@) == Some(0x1Bu32),
        named_key_code("BACKSPACE"@) == Some(0x08u32),
        named_key_code("BACK"@) == Some(0x08u32),
        named_key_code("INSERT"@) == Some(0x2Du32),
        named_key_code("DELETE"@) == Some(0x2Eu32),
        named_key_code("DEL"@) == Some(0x2Eu32),
        named_key_code("HOME"@) == Some(0x24u32),
        named_key_code("END"@) == Some(0x23u32),
        named_key_code("PAGEUP"@) == Some(0x21u32),
        named_key_code("PGUP"@) == Some(0x21u32),
        named_key_code("PAGEDOWN"@) == Some(0x22u32),
        named_key_code("PGDN"@) == Some(0x22u32),
        named_key_code("LEFT"@) == Some(0x25u32),
        named_key_code("UP"@) == Some(0x26u32),
        named_key_code("RIGHT"@) == Some(0x27u32),
        named_key_code("DOWN"@) == Some(0x28u32),
        key_code_of("F1"@) == Some(0x70u32),
        key_code_of("F2"@) == Some(0x71u32),
        key_code_of("F3"@) == Some(0x72u32),
        key_code_of("F4"@) == Some(0x73u32),
        key_code_of("F5"@) == Some(0x74u32),
        key_code_of("F6"@) == Some(0x75u32),
        key_code_of("F7"@) == Some(0x76u32),
        key_code_of("F8"@) == Some(0x77u32),
        key_code_of("F9"@) == Some(0x78u32),
        key_code_of("F10"@) == Some(0x79u32),
        key_code_of("F11"@) == Some(0x7Au32),
        key_code_of("F12"@) == Some(0x7Bu32),
        key_code_of("SPACE"@) == Some(0x20u32),
        key_code_of("ENTER"@) == Some(0x0Du32),
        key_code_of("RETURN"@) == Some(0x0Du32),
        key_code_of("TAB"@) == Some(0x09u32),
        key_code_of("ESC"@) == Some(0x1Bu32),
        key_code_of("ESCAPE"@) == Some(0x1Bu32),
        key_code_of("BACKSPACE"@) == Some(0x08u32),
        key_code_of("BACK"@) == Some(0x08u32),
        key_code_of("INSERT"@) == Some(0x2Du32),
        key_code_of("DELETE"@) == Some(0x2Eu32),
        key_code_of("DEL"@) == Some(0x2Eu32),
        key_code_of("HOME"@) == Some(0x24u32),
        key_code_of("END"@) == Some(0x23u32),
        key_code_of("PAGEUP"@) == Some(0x21u32),
        key_code_of("PGUP"@) == Some(0x21u32),
        key_code_of("PAGEDOWN"@) == Some(0x22u32),
        key_code_of("PGDN"@) == Some(0x22u32),
        key_code_of("LEFT"@) == Some(0x25u32),
        key_code_of("UP"@) == Some(0x26u32),
        key_code_of("RIGHT"@) == Some(0x27u32),
        key_code_of("DOWN"@) == Some(0x28u32),
{
    lemma_named_key_f1();
    lemma_named_key_f2();
    lemma_named_key_f3();
    lemma_named_key_f4();
    lemma_named_key_f5();
    lemma_named_key_f6();
    lemma_named_key_f7();
    lemma_named_key_f8();
    lemma_named_key_f9();
    lemma_named_key_f10();
    lemma_named_key_f11();
    lemma_named_key_f12();
    lemma_named_key_space();
    lemma_named_key_enter();
    lemma_named_key_return();
    lemma_named_key_tab();
    lemma_named_key_esc();
    lemma_named_key_escape();
    lemma_named_key_backspace();
    lemma_named_key_back();
    lemma_named_key_insert();
    lemma_named_key_delete();
    lemma_named_key_del();
    lemma_named_key_home();
    lemma_named_key_end();
    lemma_named_key_pageup();
    lemma_named_key_pgup();
    lemma_named_key_pagedown();
    lemma_named_key_pgdn();
    lemma_named_key_left();
    lemma_named_key_up();
    lemma_named_key_right();
    lemma_named_key_down();
}

proof fn lemma_named_key_f1()
    ensures
        named_key_code("F1"@) == Some(0x70u32),
        key_code_of("F1"@) == Some(0x70u32),
{
    reveal_strlit("F1");
    lemma_plain_name("F1"@);
}

proof fn lemma_named_key_f2()
    ensures
        named_key_code("F2"@) == Some(0x71u32),
        key_code_of("F2"@) == Some(0x71u32),
{
    reveal_strlit("F2");
    reveal_strlit("F1");
    assert("F2"@[1] != "F1"@[1]);
    lemma_plain_name("F2"@);
}

proof fn lemma_named_key_f3()
    ensures
        named_key_code("F3"@) == Some(0x72u32),
        key_code_of("F3"@) == Some(0x72u32),
{
    reveal_strlit("F3");
    reveal_strlit("F1");
    assert("F3"@[1] != "F1"@[1]);
    reveal_strlit("F2");
    assert("F3"@[1] != "F2"@[1]);
    lemma_plain_name("F3"@);
}

proof fn lemma_named_key_f4()
    ensures
        named_key_code("F4"@) == Some(0x73u32),
        key_code_of("F4"@) == Some(0x73u32),
{
    reveal_strlit("F4");
    reveal_strlit("F1");
    assert("F4"@[1] != "F1"@[1]);
    reveal_strlit("F2");
    assert("F4"@[1] != "F2"@[1]);
    reveal_strlit("F3");
    assert("F4"@[1] != "F3"@[1]);
    lemma_plain_name("F4"@);
}

proof fn lemma_named_key_f5()
    ensures
        named_key_code("F5"@) == Some(0x74u32),
        key_code_of("F5"@) == Some(0x74u32),
{
    reveal_strlit("F5");
    reveal_strlit("F1");
    assert("F5"@[1] != "F1"@[1]);
    reveal_strlit("F2");
    assert("F5"@[1] != "F2"@[1]);
    reveal_strlit("F3");
    assert("F5"@[1] != "F3"@[1]);
    reveal_strlit("F4");
    assert("F5"@[1] != "F4"@[1]);
    lemma_plain_name("F5"@);
}

proof fn lemma_named_key_f6()
    ensures
        named_key_code("F6"@) == Some(0x75u32),
        key_code_of("F6"@) == Some(0x75u32),
{
    reveal_strlit("F6");
    reveal_strlit("F1");
    assert("F6"@[1] != "F1"@[1]);
    reveal_strlit("F2");
    assert("F6"@[1] != "F2"@[1]);
    reveal_strlit("F3");
    assert("F6"@[1] != "F3"@[1]);
    reveal_strlit("F4");
    assert("F6"@[1] != "F4"@[1]);
    reveal_strlit("F5");
    assert("F6"@[1] != "F5"@[1]);
    lemma_plain_name("F6"@);
}

proof fn lemma_named_key_f7()
    ensures
        named_key_code("F7"@) == Some(0x76u32),
        key_code_of("F7"@) == Some(0x76u32),
{
    reveal_strlit("F7");
    reveal_strlit("F1");
    assert("F7"@[1] != "F1"@[1]);
    reveal_strlit("F2");
    assert("F7"@[1] != "F2"@[1]);
    reveal_strlit("F3");
    assert("F7"@[1] != "F3"@[1]);
    reveal_strlit("F4");
    assert("F7"@[1] != "F4"@[1]);
    reveal_strlit("F5");
    assert("F7"@[1] != "F5"@[1]);
    reveal_strlit("F6");
    assert("F7"@[1] != "F6"@[1]);
    lemma_plain_name("F7"@);
}

proof fn lemma_named_key_f8()
    ensures
        named_key_code("F8"@) == Some(0x77u32),
        key_code_of("F8"@) == Some(0x77u32),
{
    reveal_strlit("F8");
    reveal_strlit("F1");
    assert("F8"@[1] != "F1"@[1]);
    reveal_strlit("F2");
    assert("F8"@[1] != "F2"@[1]);
    reveal_strlit("F3");
    assert("F8"@[1] != "F3"@[1]);
    reveal_strlit("F4");
    assert("F8"@[1] != "F4"@[1]);
    reveal_strlit("F5");
    assert("F8"@[1] != "F5"@[1]);
    reveal_strlit("F6");
    assert("F8"@[1] != "F6"@[1]);
    reveal_strlit("F7");
    assert("F8"@[1] != "F7"@[1]);
    lemma_plain_name("F8"@);
}

proof fn lemma_named_key_f9()
    ensures
        named_key_code("F9"@) == Some(0x78u32),
        key_code_of("F9"@) == Some(0x78u32),
{
    reveal_strlit("F9");
    reveal_strlit("F1");
    assert("F9"@[1] != "F1"@[1]);
    reveal_strlit("F2");
    assert("F9"@[1] != "F2"@[1]);
    reveal_strlit("F3");
    assert("F9"@[1] != "F3"@[1]);
    reveal_strlit("F4");
    assert("F9"@[1] != "F4"@[1]);
    reveal_strlit("F5");
    assert("F9"@[1] != "F5"@[1]);
    reveal_strlit("F6");
    assert("F9"@[1] != "F6"@[1]);
    reveal_strlit("F7");
    assert("F9"@[1] != "F7"@[1]);
    reveal_strlit("F8");
    assert("F9"@[1] != "F8"@[1]);
    lemma_plain_name("F9"@);
}

proof fn lemma_named_key_f10()
    ensures
        named_key_code("F10"@) == Some(0x79u32),
        key_code_of("F10"@) == Some(0x79u32),
{
    reveal_strlit("F10");
    reveal_strlit("F1");
    assert("F10"@.len() != "F1"@.len());
    reveal_strlit("F2");
    assert("F10"@.len() != "F2"@.len());
    reveal_strlit("F3");
    assert("F10"@.len() != "F3"@.len());
    reveal_strlit("F4");
    assert("F10"@.len() != "F4"@.len());
    reveal_strlit("F5");
    assert("F10"@.len() != "F5"@.len());
    reveal_strlit("F6");
    assert("F10"@.len() != "F6"@.len());
    reveal_strlit("F7");
    assert("F10"@.len() != "F7"@.len());
    reveal_strlit("F8");
    assert("F10"@.len() != "F8"@.len());
    reveal_strlit("F9");
    assert("F10"@.len() != "F9"@.len());
    lemma_plain_name("F10"@);
}

proof fn lemma_named_key_f11()
    ensures
        named_key_code("F11"@) == Some(0x7Au32),
        key_code_of("F11"@) == Some(0x7Au32),
{
    reveal_strlit("F11");
    reveal_strlit("F1");
    assert("F11"@.len() != "F1"@.len());
    reveal_strlit("F2");
    assert("F11"@.len() != "F2"@.len());
    reveal_strlit("F3");
    assert("F11"@.len() != "F3"@.len());
    reveal_strlit("F4");
    assert("F11"@.len() != "F4"@.len());
    reveal_strlit("F5");
    assert("F11"@.len() != "F5"@.len());
    reveal_strlit("F6");
    assert("F11"@.len() != "F6"@.len());
    reveal_strlit("F7");
    assert("F11"@.len() != "F7"@.len());
    reveal_strlit("F8");
    assert("F11"@.len() != "F8"@.len());
    reveal_strlit("F9");
    assert("F11"@.len() != "F9"@.len());
    reveal_strlit("F10");
    assert("F11"@[2] != "F10"@[2]);
    lemma_plain_name("F11"@);
}

proof fn lemma_named_key_f12()
    ensures
        named_key_code("F12"@) == Some(0x7Bu32),
        key_code_of("F12"@) == Some(0x7Bu32),
{
    reveal_strlit("F12");
    reveal_strlit("F1");
    assert("F12"@.len() != "F1"@.len());
    reveal_strlit("F2");
    assert("F12"@.len() != "F2"@.len());
    reveal_strlit("F3");
    assert("F12"@.len() != "F3"@.len());
    reveal_strlit("F4");
    assert("F12"@.len() != "F4"@.len());
    reveal_strlit("F5");
    assert("F12"@.len() != "F5"@.len());
    reveal_strlit("F6");
    assert("F12"@.len() != "F6"@.len());
    reveal_strlit("F7");
    assert("F12"@.len() != "F7"@.len());
    reveal_strlit("F8");
    assert("F12"@.len() != "F8"@.len());
    reveal_strlit("F9");
    assert("F12"@.len() != "F9"@.len());
    reveal_strlit("F10");
    assert("F12"@[2] != "F10"@[2]);
    reveal_strlit("F11");
    assert("F12"@[2] != "F11"@[2]);
    lemma_plain_name("F12"@);
}

proof fn lemma_named_key_space()
    ensures
        named_key_code("SPACE"@) == Some(0x20u32),
        key_code_of("SPACE"@) == Some(0x20u32),
{
    reveal_strlit("SPACE");
    reveal_strlit("F1");
    assert("SPACE"@.len() != "F1"@.len());
    reveal_strlit("F2");
    assert("SPACE"@.len() != "F2"@.len());
    reveal_strlit("F3");
    assert("SPACE"@.len() != "F3"@.len());
    reveal_strlit("F4");
    assert("SPACE"@.len() != "F4"@.len());
    reveal_strlit("F5");
    assert("SPACE"@.len() != "F5"@.len());
    reveal_strlit("F6");
    assert("SPACE"@.len() != "F6"@.len());
    reveal_strlit("F7");
    assert("SPACE"@.len() != "F7"@.len());
    reveal_strlit("F8");
    assert("SPACE"@.len() != "F8"@.len());
    reveal_strlit("F9");
    assert("SPACE"@.len() != "F9"@.len());
    reveal_strlit("F10");
    assert("SPACE"@.len() != "F10"@.len());
    reveal_strlit("F11");
    assert("SPACE"@.len() != "F11"@.len());
    reveal_strlit("F12");
    assert("SPACE"@.len() != "F12"@.len());
    lemma_plain_name("SPACE"@);
}

proof fn lemma_named_key_enter()
    ensures
        named_key_code("ENTER"@) == Some(0x0Du32),
        key_code_of("ENTER"@) == Some(0x0Du32),
{
    reveal_strlit("ENTER");
    reveal_strlit("F1");
    assert("ENTER"@.len() != "F1"@.len());
    reveal_strlit("F2");
    assert("ENTER"@.len() != "F2"@.len());
    reveal_strlit("F3");
    assert("ENTER"@.len() != "F3"@.len());
    reveal_strlit("F4");
    assert("ENTER"@.len() != "F4"@.len());
    reveal_strlit("F5");
    assert("ENTER"@.len() != "F5"@.len());
    reveal_strlit("F6");
    assert("ENTER"@.len() != "F6"@.len());
    reveal_strlit("F7");
    assert("ENTER"@.len() != "F7"@.len());
    reveal_strlit("F8");
    assert("ENTER"@.len() != "F8"@.len());
    reveal_strlit("F9");
    assert("ENTER"@.len() != "F9"@.len());
    reveal_strlit("F10");
    assert("ENTER"@.len() != "F10"@.len());
    reveal_strlit("F11");
    assert("ENTER"@.len() != "F11"@.len());
    reveal_strlit("F12");
    assert("ENTER"@.len() != "F12"@.len());
    reveal_strlit("SPACE");
    assert("ENTER"@[0] != "SPACE"@[0]);
    lemma_plain_name("ENTER"@);
}

proof fn lemma_named_key_return()
    ensures
        named_key_code("RETURN"@) == Some(0x0Du32),
        key_code_of("RETURN"@) == Some(0x0Du32),
{
    reveal_strlit("RETURN");
    reveal_strlit("F1");
    assert("RETURN"@.len() != "F1"@.len());
    reveal_strlit("F2");
    assert("RETURN"@.len() != "F2"@.len());
    reveal_strlit("F3");
    assert("RETURN"@.len() != "F3"@.len());
    reveal_strlit("F4");
    assert("RETURN"@.len() != "F4"@.len());
    reveal_strlit("F5");
    assert("RETURN"@.len() != "F5"@.len());
    reveal_strlit("F6");
    assert("RETURN"@.len() != "F6"@.len());
    reveal_strlit("F7");
    assert("RETURN"@.len() != "F7"@.len());
    reveal_strlit("F8");
    assert("RETURN"@.len() != "F8"@.len());
    reveal_strlit("F9");
    assert("RETURN"@.len() != "F9"@.len());
    reveal_strlit("F10");
    assert("RETURN"@.len() != "F10"@.len());
    reveal_strlit("F11");
    assert("RETURN"@.len() != "F11"@.len());
    reveal_strlit("F12");
    assert("RETURN"@.len() != "F12"@.len());
    reveal_strlit("SPACE");
    assert("RETURN"@.len() != "SPACE"@.len());
    reveal_strlit("ENTER");
    assert("RETURN"@.len() != "ENTER"@.len());
    lemma_plain_name("RETURN"@);
}

proof fn lemma_named_key_tab()
    ensures
        named_key_code("TAB"@) == Some(0x09u32),
        key_code_of("TAB"@) == Some(0x09u32),
{
    reveal_strlit("TAB");
    reveal_strlit("F1");
    assert("TAB"@.len() != "F1"@.len());
    reveal_strlit("F2");
    assert("TAB"@.len() != "F2"@.len());
    reveal_strlit("F3");
    assert("TAB"@.len() != "F3"@.len());
    reveal_strlit("F4");
    assert("TAB"@.len() != "F4"@.len());
    reveal_strlit("F5");
    assert("TAB"@.len() != "F5"@.len());
    reveal_strlit("F6");
    assert("TAB"@.len() != "F6"@.len());
    reveal_strlit("F7");
    assert("TAB"@.len() != "F7"@.len());
    reveal_strlit("F8");
    assert("TAB"@.len() != "F8"@.len());
    reveal_strlit("F9");
    assert("TAB"@.len() != "F9"@.len());
    reveal_strlit("F10");
    assert("TAB"@[0] != "F10"@[0]);
    reveal_strlit("F11");
    assert("TAB"@[0] != "F11"@[0]);
    reveal_strlit("F12");
    assert("TAB"@[0] != "F12"@[0]);
    reveal_strlit("SPACE");
    assert("TAB"@.len() != "SPACE"@.len());
    reveal_strlit("ENTER");
    assert("TAB"@.len() != "ENTER"@.len());
    reveal_strlit("RETURN");
    assert("TAB"@.len() != "RETURN"@.len());
    lemma_plain_name("TAB"@);
}

proof fn lemma_named_key_esc()
    ensures
        named_key_code("ESC"@) == Some(0x1Bu32),
        key_code_of("ESC"@) == Some(0x1Bu32),
{
    reveal_strlit("ESC");
    reveal_strlit("F1");
    assert("ESC"@.len() != "F1"@.len());
    reveal_strlit("F2");
    assert("ESC"@.len() != "F2"@.len());
    reveal_strlit("F3");
    assert("ESC"@.len() != "F3"@.len());
    reveal_strlit("F4");
    assert("ESC"@.len() != "F4"@.len());
    reveal_strlit("F5");
    assert("ESC"@.len() != "F5"@.len());
    reveal_strlit("F6");
    assert("ESC"@.len() != "F6"@.len());
    reveal_strlit("F7");
    assert("ESC"@.len() != "F7"@.len());
    reveal_strlit("F8");
    assert("ESC"@.len() != "F8"@.len());
    reveal_strlit("F9");
    assert("ESC"@.len() != "F9"@.len());
    reveal_strlit("F10");
    assert("ESC"@[0] != "F10"@[0]);
    reveal_strlit("F11");
    assert("ESC"@[0] != "F11"@[0]);
    reveal_strlit("F12");
    assert("ESC"@[0] != "F12"@[0]);
    reveal_strlit("SPACE");
    assert("ESC"@.len() != "SPACE"@.len());
    reveal_strlit("ENTER");
    assert("ESC"@.len() != "ENTER"@.len());
    reveal_strlit("RETURN");
    assert("ESC"@.len() != "RETURN"@.len());
    reveal_strlit("TAB");
    assert("ESC"@[0] != "TAB"@[0]);
    lemma_plain_name("ESC"@);
}

proof fn lemma_named_key_escape()
    ensures
        named_key_code("ESCAPE"@) == Some(0x1Bu32),
        key_code_of("ESCAPE"@) == Some(0x1Bu32),
{
    reveal_strlit("ESCAPE");
    reveal_strlit("F1");
    assert("ESCAPE"@.len() != "F1"@.len());
    reveal_strlit("F2");
    assert("ESCAPE"@.len() != "F2"@.len());
    reveal_strlit("F3");
    assert("ESCAPE"@.len() != "F3"@.len());
    reveal_strlit("F4");
    assert("ESCAPE"@.len() != "F4"@.len());
    reveal_strlit("F5");
    assert("ESCAPE"@.len() != "F5"@.len());
    reveal_strlit("F6");
    assert("ESCAPE"@.len() != "F6"@.len());
    reveal_strlit("F7");
    assert("ESCAPE"@.len() != "F7"@.len());
    reveal_strlit("F8");
    assert("ESCAPE"@.len() != "F8"@.len());
    reveal_strlit("F9");
    assert("ESCAPE"@.len() != "F9"@.len());
    reveal_strlit("F10");
    assert("ESCAPE"@.len() != "F10"@.len());
    reveal_strlit("F11");
    assert("ESCAPE"@.len() != "F11"@.len());
    reveal_strlit("F12");
    assert("ESCAPE"@.len() != "F12"@.len());
    reveal_strlit("SPACE");
    assert("ESCAPE"@.len() != "SPACE"@.len());
    reveal_strlit("ENTER");
    assert("ESCAPE"@.len() != "ENTER"@.len());
    reveal_strlit("RETURN");
    assert("ESCAPE"@[0] != "RETURN"@[0]);
    reveal_strlit("TAB");
    assert("ESCAPE"@.len() != "TAB"@.len());
    reveal_strlit("ESC");
    assert("ESCAPE"@.len() != "ESC"@.len());
    lemma_plain_name("ESCAPE"@);
}

proof fn lemma_named_key_backspace()
    ensures
        named_key_code("BACKSPACE"@) == Some(0x08u32),
        key_code_of("BACKSPACE"@) == Some(0x08u32),
{
    reveal_strlit("BACKSPACE");
    reveal_strlit("F1");
    assert("BACKSPACE"@.len() != "F1"@.len());
    reveal_strlit("F2");
    assert("BACKSPACE"@.len() != "F2"@.len());
    reveal_strlit("F3");
    assert("BACKSPACE"@.len() != "F3"@.len());
    reveal_strlit("F4");
    assert("BACKSPACE"@.len() != "F4"@.len());
    reveal_strlit("F5");
    assert("BACKSPACE"@.len() != "F5"@.len());
    reveal_strlit("F6");
    assert("BACKSPACE"@.len() != "F6"@.len());
    reveal_strlit("F7");
    assert("BACKSPACE"@.len() != "F7"@.len());
    reveal_strlit("F8");
    assert("BACKSPACE"@.len() != "F8"@.len());
    reveal_strlit("F9");
    assert("BACKSPACE"@.len() != "F9"@.len());
    reveal_strlit("F10");
    assert("BACKSPACE"@.len() != "F10"@.len());
    reveal_strlit("F11");
    assert("BACKSPACE"@.len() != "F11"@.len());
    reveal_strlit("F12");
    assert("BACKSPACE"@.len() != "F12"@.len());
    reveal_strlit("SPACE");
    assert("BACKSPACE"@.len() != "SPACE"@.len());
    reveal_strlit("ENTER");
    assert("BACKSPACE"@.len() != "ENTER"@.len());
    reveal_strlit("RETURN");
    assert("BACKSPACE"@.len() != "RETURN"@.len());
    reveal_strlit("TAB");
    assert("BACKSPACE"@.len() != "TAB"@.len());
    reveal_strlit("ESC");
    assert("BACKSPACE"@.len() != "ESC"@.len());
    reveal_strlit("ESCAPE");
    assert("BACKSPACE"@.len() != "ESCAPE"@.len());
    lemma_plain_name("BACKSPACE"@);
}

proof fn lemma_named_key_back()
    ensures
        named_key_code("BACK"@) == Some(0x08u32),
        key_code_of("BACK"@) == Some(0x08u32),
{
    reveal_strlit("BACK");
    reveal_strlit("F1");
    assert("BACK"@.len() != "F1"@.len());
    reveal_strlit("F2");
    assert("BACK"@.len() != "F2"@.len());
    reveal_strlit("F3");
    assert("BACK"@.len() != "F3"@.len());
    reveal_strlit("F4");
    assert("BACK"@.len() != "F4"@.len());
    reveal_strlit("F5");
    assert("BACK"@.len() != "F5"@.len());
    reveal_strlit("F6");
    assert("BACK"@.len() != "F6"@.len());
    reveal_strlit("F7");
    assert("BACK"@.len() != "F7"@.len());
    reveal_strlit("F8");
    assert("BACK"@.len() != "F8"@.len());
    reveal_strlit("F9");
    assert("BACK"@.len() != "F9"@.len());
    reveal_strlit("F10");
    assert("BACK"@.len() != "F10"@.len());
    reveal_strlit("F11");
    assert("BACK"@.len() != "F11"@.len());
    reveal_strlit("F12");
    assert("BACK"@.len() != "F12"@.len());
    reveal_strlit("SPACE");
    assert("BACK"@.len() != "SPACE"@.len());
    reveal_strlit("ENTER");
    assert("BACK"@.len() != "ENTER"@.len());
    reveal_strlit("RETURN");
    assert("BACK"@.len() != "RETURN"@.len());
    reveal_strlit("TAB");
    assert("BACK"@.len() != "TAB"@.len());
    reveal_strlit("ESC");
    assert("BACK"@.len() != "ESC"@.len());
    reveal_strlit("ESCAPE");
    assert("BACK"@.len() != "ESCAPE"@.len());
    reveal_strlit("BACKSPACE");
    assert("BACK"@.len() != "BACKSPACE"@.len());
    lemma_plain_name("BACK"@);
}

proof fn lemma_named_key_insert()
    ensures
        named_key_code("INSERT"@) == Some(0x2Du32),
        key_code_of("INSERT"@) == Some(0x2Du32),
{
    reveal_strlit("INSERT");
    reveal_strlit("F1");
    assert("INSERT"@.len() != "F1"@.len());
    reveal_strlit("F2");
    assert("INSERT"@.len() != "F2"@.len());
    reveal_strlit("F3");
    assert("INSERT"@.len() != "F3"@.len());
    reveal_strlit("F4");
    assert("INSERT"@.len() != "F4"@.len());
    reveal_strlit("F5");
    assert("INSERT"@.len() != "F5"@.len());
    reveal_strlit("F6");
    assert("INSERT"@.len() != "F6"@.len());
    reveal_strlit("F7");
    assert("INSERT"@.len() != "F7"@.len());
    reveal_strlit("F8");
    assert("INSERT"@.len() != "F8"@.len());
    reveal_strlit("F9");
    assert("INSERT"@.len() != "F9"@.len());
    reveal_strlit("F10");
    assert("INSERT"@.len() != "F10"@.len());
    reveal_strlit("F11");
    assert("INSERT"@.len() != "F11"@.len());
    reveal_strlit("F12");
    assert("INSERT"@.len() != "F12"@.len());
    reveal_strlit("SPACE");
    assert("INSERT"@.len() != "SPACE"@.len());
    reveal_strlit("ENTER");
    assert("INSERT"@.len() != "ENTER"@.len());
    reveal_strlit("RETURN");
    assert("INSERT"@[0] != "RETURN"@[0]);
    reveal_strlit("TAB");
    assert("INSERT"@.len() != "TAB"@.len());
    reveal_strlit("ESC");
    assert("INSERT"@.len() != "ESC"@.len());
    reveal_strlit("ESCAPE");
    assert("INSERT"@[0] != "ESCAPE"@[0]);
    reveal_strlit("BACKSPACE");
    assert("INSERT"@.len() != "BACKSPACE"@.len());
    reveal_strlit("BACK");
    assert("INSERT"@.len() != "BACK"@.len());
    lemma_plain_name("INSERT"@);
}

proof fn lemma_named_key_delete()
    ensures
        named_key_code("DELETE"@) == Some(0x2Eu32),
        key_code_of("DELETE"@) == Some(0x2Eu32),
{
    reveal_strlit("DELETE");
    reveal_strlit("F1");
    assert("DELETE"@.len() != "F1"@.len());
    reveal_strlit("F2");
    assert("DELETE"@.len() != "F2"@.len());
    reveal_strlit("F3");
    assert("DELETE"@.len() != "F3"@.len());
    reveal_strlit("F4");
    assert("DELETE"@.len() != "F4"@.len());
    reveal_strlit("F5");
    assert("DELETE"@.len() != "F5"@.len());
    reveal_strlit("F6");
    assert("DELETE"@.len() != "F6"@.len());
    reveal_strlit("F7");
    assert("DELETE"@.len() != "F7"@.len());
    reveal_strlit("F8");
    assert("DELETE"@.len() != "F8"@.len());
    reveal_strlit("F9");
    assert("DELETE"@.len() != "F9"@.len());
    reveal_strlit("F10");
    assert("DELETE"@.len() != "F10"@.len());
    reveal_strlit("F11");
    assert("DELETE"@.len() != "F11"@.len());
    reveal_strlit("F12");
    assert("DELETE"@.len() != "F12"@.len());
    reveal_strlit("SPACE");
    assert("DELETE"@.len() != "SPACE"@.len());
    reveal_strlit("ENTER");
    assert("DELETE"@.len() != "ENTER"@.len());
    reveal_strlit("RETURN");
    assert("DELETE"@[0] != "RETURN"@[0]);
    reveal_strlit("TAB");
    assert("DELETE"@.len() != "TAB"@.len());
    reveal_strlit("ESC");
    assert("DELETE"@.len() != "ESC"@.len());
    reveal_strlit("ESCAPE");
    assert("DELETE"@[0] != "ESCAPE"@[0]);
    reveal_strlit("BACKSPACE");
    assert("DELETE"@.len() != "BACKSPACE"@.len());
    reveal_strlit("BACK");
    assert("DELETE"@.len() != "BACK"@.len());
    reveal_strlit("INSERT");
    assert("DELETE"@[0] != "INSERT"@[0]);
    lemma_plain_name("DELETE"@);
}

proof fn lemma_named_key_del()
    ensures
        named_key_code("DEL"@) == Some(0x2Eu32),
        key_code_of("DEL"@) == Some(0x2Eu32),
{
    reveal_strlit("DEL");
    reveal_strlit("F1");
    assert("DEL"@.len() != "F1"@.len());
    reveal_strlit("F2");
    assert("DEL"@.len() != "F2"@.len());
    reveal_strlit("F3");
    assert("DEL"@.len() != "F3"@.len());
    reveal_strlit("F4");
    assert("DEL"@.len() != "F4"@.len());
    reveal_strlit("F5");
    assert("DEL"@.len() != "F5"@.len());
    reveal_strlit("F6");
    assert("DEL"@.len() != "F6"@.len());
    reveal_strlit("F7");
    assert("DEL"@.len() != "F7"@.len());
    reveal_strlit("F8");
    assert("DEL"@.len() != "F8"@.len());
    reveal_strlit("F9");
    assert("DEL"@.len() != "F9"@.len());
    reveal_strlit("F10");
    assert("DEL"@[0] != "F10"@[0]);
    reveal_strlit("F11");
    assert("DEL"@[0] != "F11"@[0]);
    reveal_strlit("F12");
    assert("DEL"@[0] != "F12"@[0]);
    reveal_strlit("SPACE");
    assert("DEL"@.len() != "SPACE"@.len());
    reveal_strlit("ENTER");
    assert("DEL"@.len() != "ENTER"@.len());
    reveal_strlit("RETURN");
    assert("DEL"@.len() != "RETURN"@.len());
    reveal_strlit("TAB");
    assert("DEL"@[0] != "TAB"@[0]);
    reveal_strlit("ESC");
    assert("DEL"@[0] != "ESC"@[0]);
    reveal_strlit("ESCAPE");
    assert("DEL"@.len() != "ESCAPE"@.len());
    reveal_strlit("BACKSPACE");
    assert("DEL"@.len() != "BACKSPACE"@.len());
    reveal_strlit("BACK");
    assert("DEL"@.len() != "BACK"@.len());
    reveal_strlit("INSERT");
    assert("DEL"@.len() != "INSERT"@.len());
    reveal_strlit("DELETE");
    assert("DEL"@.len() != "DELETE"@.len());
    lemma_plain_name("DEL"@);
}

proof fn lemma_named_key_home()
    ensures
        named_key_code("HOME"@) == Some(0x24u32),
        key_code_of("HOME"@) == Some(0x24u32),
{
    reveal_strlit("HOME");
    reveal_strlit("F1");
    assert("HOME"@.len() != "F1"@.len());
    reveal_strlit("F2");
    assert("HOME"@.len() != "F2"@.len());
    reveal_strlit("F3");
    assert("HOME"@.len() != "F3"@.len());
    reveal_strlit("F4");
    assert("HOME"@.len() != "F4"@.len());
    reveal_strlit("F5");
    assert("HOME"@.len() != "F5"@.len());
    reveal_strlit("F6");
    assert("HOME"@.len() != "F6"@.len());
    reveal_strlit("F7");
    assert("HOME"@.len() != "F7"@.len());
    reveal_strlit("F8");
    assert("HOME"@.len() != "F8"@.len());
    reveal_strlit("F9");
    assert("HOME"@.len() != "F9"@.len());
    reveal_strlit("F10");
    assert("HOME"@.len() != "F10"@.len());
    reveal_strlit("F11");
    assert("HOME"@.len() != "F11"@.len());
    reveal_strlit("F12");
    assert("HOME"@.len() != "F12"@.len());
    reveal_strlit("SPACE");
    assert("HOME"@.len() != "SPACE"@.len());
    reveal_strlit("ENTER");
    assert("HOME"@.len() != "ENTER"@.len());
    reveal_strlit("RETURN");
    assert("HOME"@.len() != "RETURN"@.len());
    reveal_strlit("TAB");
    assert("HOME"@.len() != "TAB"@.len());
    reveal_strlit("ESC");
    assert("HOME"@.len() != "ESC"@.len());
    reveal_strlit("ESCAPE");
    assert("HOME"@.len() != "ESCAPE"@.len());
    reveal_strlit("BACKSPACE");
    assert("HOME"@.len() != "BACKSPACE"@.len());
    reveal_strlit("BACK");
    assert("HOME"@[0] != "BACK"@[0]);
    reveal_strlit("INSERT");
    assert("HOME"@.len() != "INSERT"@.len());
    reveal_strlit("DELETE");
    assert("HOME"@.len() != "DELETE"@.len());
    reveal_strlit("DEL");
    assert("HOME"@.len() != "DEL"@.len());
    lemma_plain_name("HOME"@);
}

proof fn lemma_named_key_end()
    ensures
        named_key_code("END"@) == Some(0x23u32),
        key_code_of("END"@) == Some(0x23u32),
{
    reveal_strlit("END");
    reveal_strlit("F1");
    assert("END"@.len() != "F1"@.len());
    reveal_strlit("F2");
    assert("END"@.len() != "F2"@.len());
    reveal_strlit("F3");
    assert("END"@.len() != "F3"@.len());
    reveal_strlit("F4");
    assert("END"@.len() != "F4"@.len());
    reveal_strlit("F5");
    assert("END"@.len() != "F5"@.len());
    reveal_strlit("F6");
    assert("END"@.len() != "F6"@.len());
    reveal_strlit("F7");
    assert("END"@.len() != "F7"@.len());
    reveal_strlit("F8");
    assert("END"@.len() != "F8"@.len());
    reveal_strlit("F9");
    assert("END"@.len() != "F9"@.len());
    reveal_strlit("F10");
    assert("END"@[0] != "F10"@[0]);
    reveal_strlit("F11");
    assert("END"@[0] != "F11"@[0]);
    reveal_strlit("F12");
    assert("END"@[0] != "F12"@[0]);
    reveal_strlit("SPACE");
    assert("END"@.len() != "SPACE"@.len());
    reveal_strlit("ENTER");
    assert("END"@.len() != "ENTER"@.len());
    reveal_strlit("RETURN");
    assert("END"@.len() != "RETURN"@.len());
    reveal_strlit("TAB");
    assert("END"@[0] != "TAB"@[0]);
    reveal_strlit("ESC");
    assert("END"@[1] != "ESC"@[1]);
    reveal_strlit("ESCAPE");
    assert("END"@.len() != "ESCAPE"@.len());
    reveal_strlit("BACKSPACE");
    assert("END"@.len() != "BACKSPACE"@.len());
    reveal_strlit("BACK");
    assert("END"@.len() != "BACK"@.len());
    reveal_strlit("INSERT");
    assert("END"@.len() != "INSERT"@.len());
    reveal_strlit("DELETE");
    assert("END"@.len() != "DELETE"@.len());
    reveal_strlit("DEL");
    assert("END"@[0] != "DEL"@[0]);
    reveal_strlit("HOME");
    assert("END"@.len() != "HOME"@.len());
    lemma_plain_name("END"@);
}

proof fn lemma_named_key_pageup()
    ensures
        named_key_code("PAGEUP"@) == Some(0x21u32),
        key_code_of("PAGEUP"@) == Some(0x21u32),
{
    reveal_strlit("PAGEUP");
    reveal_strlit("F1");
    assert("PAGEUP"@.len() != "F1"@.len());
    reveal_strlit("F2");
    assert("PAGEUP"@.len() != "F2"@.len());
    reveal_strlit("F3");
    assert("PAGEUP"@.len() != "F3"@.len());
    reveal_strlit("F4");
    assert("PAGEUP"@.len() != "F4"@.len());
    reveal_strlit("F5");
    assert("PAGEUP"@.len() != "F5"@.len());
    reveal_strlit("F6");
    assert("PAGEUP"@.len() != "F6"@.len());
    reveal_strlit("F7");
    assert("PAGEUP"@.len() != "F7"@.len());
    reveal_strlit("F8");
    assert("PAGEUP"@.len() != "F8"@.len());
    reveal_strlit("F9");
    assert("PAGEUP"@.len() != "F9"@.len());
    reveal_strlit("F10");
    assert("PAGEUP"@.len() != "F10"@.len());
    reveal_strlit("F11");
    assert("PAGEUP"@.len() != "F11"@.len());
    reveal_strlit("F12");
    assert("PAGEUP"@.len() != "F12"@.len());
    reveal_strlit("SPACE");
    assert("PAGEUP"@.len() != "SPACE"@.len());
    reveal_strlit("ENTER");
    assert("PAGEUP"@.len() != "ENTER"@.len());
    reveal_strlit("RETURN");
    assert("PAGEUP"@[0] != "RETURN"@[0]);
    reveal_strlit("TAB");
    assert("PAGEUP"@.len() != "TAB"@.len());
    reveal_strlit("ESC");
    assert("PAGEUP"@.len() != "ESC"@.len());
    reveal_strlit("ESCAPE");
    assert("PAGEUP"@[0] != "ESCAPE"@[0]);
    reveal_strlit("BACKSPACE");
    assert("PAGEUP"@.len() != "BACKSPACE"@.len());
    reveal_strlit("BACK");
    assert("PAGEUP"@.len() != "BACK"@.len());
    reveal_strlit("INSERT");
    assert("PAGEUP"@[0] != "INSERT"@[0]);
    reveal_strlit("DELETE");
    assert("PAGEUP"@[0] != "DELETE"@[0]);
    reveal_strlit("DEL");
    assert("PAGEUP"@.len() != "DEL"@.len());
    reveal_strlit("HOME");
    assert("PAGEUP"@.len() != "HOME"@.len());
    reveal_strlit("END");
    assert("PAGEUP"@.len() != "END"@.len());
    lemma_plain_name("PAGEUP"@);
}

proof fn lemma_named_key_pgup()
    ensures
        named_key_code("PGUP"@) == Some(0x21u32),
        key_code_of("PGUP"@) == Some(0x21u32),
{
    reveal_strlit("PGUP");
    reveal_strlit("F1");
    assert("PGUP"@.len() != "F1"@.len());
    reveal_strlit("F2");
    assert("PGUP"@.len() != "F2"@.len());
    reveal_strlit("F3");
    assert("PGUP"@.len() != "F3"@.len());
    reveal_strlit("F4");
    assert("PGUP"@.len() != "F4"@.len());
    reveal_strlit("F5");
    assert("PGUP"@.len() != "F5"@.len());
    reveal_strlit("F6");
    assert("PGUP"@.len() != "F6"@.len());
    reveal_strlit("F7");
    assert("PGUP"@.len() != "F7"@.len());
    reveal_strlit("F8");
    assert("PGUP"@.len() != "F8"@.len());
    reveal_strlit("F9");
    assert("PGUP"@.len() != "F9"@.len());
    reveal_strlit("F10");
    assert("PGUP"@.len() != "F10"@.len());
    reveal_strlit("F11");
    assert("PGUP"@.len() != "F11"@.len());
    reveal_strlit("F12");
    assert("PGUP"@.len() != "F12"@.len());
    reveal_strlit("SPACE");
    assert("PGUP"@.len() != "SPACE"@.len());
    reveal_strlit("ENTER");
    assert("PGUP"@.len() != "ENTER"@.len());
    reveal_strlit("RETURN");
    assert("PGUP"@.len() != "RETURN"@.len());
    reveal_strlit("TAB");
    assert("PGUP"@.len() != "TAB"@.len());
    reveal_strlit("ESC");
    assert("PGUP"@.len() != "ESC"@.len());
    reveal_strlit("ESCAPE");
    assert("PGUP"@.len() != "ESCAPE"@.len());
    reveal_strlit("BACKSPACE");
    assert("PGUP"@.len() != "BACKSPACE"@.len());
    reveal_strlit("BACK");
    assert("PGUP"@[0] != "BACK"@[0]);
    reveal_strlit("INSERT");
    assert("PGUP"@.len() != "INSERT"@.len());
    reveal_strlit("DELETE");
    assert("PGUP"@.len() != "DELETE"@.len());
    reveal_strlit("DEL");
    assert("PGUP"@.len() != "DEL"@.len());
    reveal_strlit("HOME");
    assert("PGUP"@[0] != "HOME"@[0]);
    reveal_strlit("END");
    assert("PGUP"@.len() != "END"@.len());
    reveal_strlit("PAGEUP");
    assert("PGUP"@.len() != "PAGEUP"@.len());
    lemma_plain_name("PGUP"@);
}

proof fn lemma_named_key_pagedown()
    ensures
        named_key_code("PAGEDOWN"@) == Some(0x22u32),
        key_code_of("PAGEDOWN"@) == Some(0x22u32),
{
    reveal_strlit("PAGEDOWN");
    reveal_strlit("F1");
    assert("PAGEDOWN"@.len() != "F1"@.len());
    reveal_strlit("F2");
    assert("PAGEDOWN"@.len() != "F2"@.len());
    reveal_strlit("F3");
    assert("PAGEDOWN"@.len() != "F3"@.len());
    reveal_strlit("F4");
    assert("PAGEDOWN"@.len() != "F4"@.len());
    reveal_strlit("F5");
    assert("PAGEDOWN"@.len() != "F5"@.len());
    reveal_strlit("F6");
    assert("PAGEDOWN"@.len() != "F6"@.len());
    reveal_strlit("F7");
    assert("PAGEDOWN"@.len() != "F7"@.len());
    reveal_strlit("F8");
    assert("PAGEDOWN"@.len() != "F8"@.len());
    reveal_strlit("F9");
    assert("PAGEDOWN"@.len() != "F9"@.len());
    reveal_strlit("F10");
    assert("PAGEDOWN"@.len() != "F10"@.len());
    reveal_strlit("F11");
    assert("PAGEDOWN"@.len() != "F11"@.len());
    reveal_strlit("F12");
    assert("PAGEDOWN"@.len() != "F12"@.len());
    reveal_strlit("SPACE");
    assert("PAGEDOWN"@.len() != "SPACE"@.len());
    reveal_strlit("ENTER");
    assert("PAGEDOWN"@.len() != "ENTER"@.len());
    reveal_strlit("RETURN");
    assert("PAGEDOWN"@.len() != "RETURN"@.len());
    reveal_strlit("TAB");
    assert("PAGEDOWN"@.len() != "TAB"@.len());
    reveal_strlit("ESC");
    assert("PAGEDOWN"@.len() != "ESC"@.len());
    reveal_strlit("ESCAPE");
    assert("PAGEDOWN"@.len() != "ESCAPE"@.len());
    reveal_strlit("BACKSPACE");
    assert("PAGEDOWN"@.len() != "BACKSPACE"@.len());
    reveal_strlit("BACK");
    assert("PAGEDOWN"@.len() != "BACK"@.len());
    reveal_strlit("INSERT");
    assert("PAGEDOWN"@.len() != "INSERT"@.len());
    reveal_strlit("DELETE");
    assert("PAGEDOWN"@.len() != "DELETE"@.len());
    reveal_strlit("DEL");
    assert("PAGEDOWN"@.len() != "DEL"@.len());
    reveal_strlit("HOME");
    assert("PAGEDOWN"@.len() != "HOME"@.len());
    reveal_strlit("END");
    assert("PAGEDOWN"@.len() != "END"@.len());
    reveal_strlit("PAGEUP");
    assert("PAGEDOWN"@.len() != "PAGEUP"@.len());
    reveal_strlit("PGUP");
    assert("PAGEDOWN"@.len() != "PGUP"@.len());
    lemma_plain_name("PAGEDOWN"@);
}

proof fn lemma_named_key_pgdn()
    ensures
        named_key_code("PGDN"@) == Some(0x22u32),
        key_code_of("PGDN"@) == Some(0x22u32),
{
    reveal_strlit("PGDN");
    reveal_strlit("F1");
    assert("PGDN"@.len() != "F1"@.len());
    reveal_strlit("F2");
    assert("PGDN"@.len() != "F2"@.len());
    reveal_strlit("F3");
    assert("PGDN"@.len() != "F3"@.len());
    reveal_strlit("F4");
    assert("PGDN"@.len() != "F4"@.len());
    reveal_strlit("F5");
    assert("PGDN"@.len() != "F5"@.len());
    reveal_strlit("F6");
    assert("PGDN"@.len() != "F6"@.len());
    reveal_strlit("F7");
    assert("PGDN"@.len() != "F7"@.len());
    reveal_strlit("F8");
    assert("PGDN"@.len() != "F8"@.len());
    reveal_strlit("F9");
    assert("PGDN"@.len() != "F9"@.len());
    reveal_strlit("F10");
    assert("PGDN"@.len() != "F10"@.len());
    reveal_strlit("F11");
    assert("PGDN"@.len() != "F11"@.len());
    reveal_strlit("F12");
    assert("PGDN"@.len() != "F12"@.len());
    reveal_strlit("SPACE");
    assert("PGDN"@.len() != "SPACE"@.len());
    reveal_strlit("ENTER");
    assert("PGDN"@.len() != "ENTER"@.len());
    reveal_strlit("RETURN");
    assert("PGDN"@.len() != "RETURN"@.len());
    reveal_strlit("TAB");
    assert("PGDN"@.len() != "TAB"@.len());
    reveal_strlit("ESC");
    assert("PGDN"@.len() != "ESC"@.len());
    reveal_strlit("ESCAPE");
    assert("PGDN"@.len() != "ESCAPE"@.len());
    reveal_strlit("BACKSPACE");
    assert("PGDN"@.len() != "BACKSPACE"@.len());
    reveal_strlit("BACK");
    assert("PGDN"@[0] != "BACK"@[0]);
    reveal_strlit("INSERT");
    assert("PGDN"@.len() != "INSERT"@.len());
    reveal_strlit("DELETE");
    assert("PGDN"@.len() != "DELETE"@.len());
    reveal_strlit("DEL");
    assert("PGDN"@.len() != "DEL"@.len());
    reveal_strlit("HOME");
    assert("PGDN"@[0] != "HOME"@[0]);
    reveal_strlit("END");
    assert("PGDN"@.len() != "END"@.len());
    reveal_strlit("PAGEUP");
    assert("PGDN"@.len() != "PAGEUP"@.len());
    reveal_strlit("PGUP");
    assert("PGDN"@[2] != "PGUP"@[2]);
    reveal_strlit("PAGEDOWN");
    assert("PGDN"@.len() != "PAGEDOWN"@.len());
    lemma_plain_name("PGDN"@);
}

proof fn lemma_named_key_left()
    ensures
        named_key_code("LEFT"@) == Some(0x25u32),
        key_code_of("LEFT"@) == Some(0x25u32),
{
    reveal_strlit("LEFT");
    reveal_strlit("F1");
    assert("LEFT"@.len() != "F1"@.len());
    reveal_strlit("F2");
    assert("LEFT"@.len() != "F2"@.len());
    reveal_strlit("F3");
    assert("LEFT"@.len() != "F3"@.len());
    reveal_strlit("F4");
    assert("LEFT"@.len() != "F4"@.len());
    reveal_strlit("F5");
    assert("LEFT"@.len() != "F5"@.len());
    reveal_strlit("F6");
    assert("LEFT"@.len() != "F6"@.len());
    reveal_strlit("F7");
    assert("LEFT"@.len() != "F7"@.len());
    reveal_strlit("F8");
    assert("LEFT"@.len() != "F8"@.len());
    reveal_strlit("F9");
    assert("LEFT"@.len() != "F9"@.len());
    reveal_strlit("F10");
    assert("LEFT"@.len() != "F10"@.len());
    reveal_strlit("F11");
    assert("LEFT"@.len() != "F11"@.len());
    reveal_strlit("F12");
    assert("LEFT"@.len() != "F12"@.len());
    reveal_strlit("SPACE");
    assert("LEFT"@.len() != "SPACE"@.len());
    reveal_strlit("ENTER");
    assert("LEFT"@.len() != "ENTER"@.len());
    reveal_strlit("RETURN");
    assert("LEFT"@.len() != "RETURN"@.len());
    reveal_strlit("TAB");
    assert("LEFT"@.len() != "TAB"@.len());
    reveal_strlit("ESC");
    assert("LEFT"@.len() != "ESC"@.len());
    reveal_strlit("ESCAPE");
    assert("LEFT"@.len() != "ESCAPE"@.len());
    reveal_strlit("BACKSPACE");
    assert("LEFT"@.len() != "BACKSPACE"@.len());
    reveal_strlit("BACK");
    assert("LEFT"@[0] != "BACK"@[0]);
    reveal_strlit("INSERT");
    assert("LEFT"@.len() != "INSERT"@.len());
    reveal_strlit("DELETE");
    assert("LEFT"@.len() != "DELETE"@.len());
    reveal_strlit("DEL");
    assert("LEFT"@.len() != "DEL"@.len());
    reveal_strlit("HOME");
    assert("LEFT"@[0] != "HOME"@[0]);
    reveal_strlit("END");
    assert("LEFT"@.len() != "END"@.len());
    reveal_strlit("PAGEUP");
    assert("LEFT"@.len() != "PAGEUP"@.len());
    reveal_strlit("PGUP");
    assert("LEFT"@[0] != "PGUP"@[0]);
    reveal_strlit("PAGEDOWN");
    assert("LEFT"@.len() != "PAGEDOWN"@.len());
    reveal_strlit("PGDN");
    assert("LEFT"@[0] != "PGDN"@[0]);
    lemma_plain_name("LEFT"@);
}

proof fn lemma_named_key_up()
    ensures
        named_key_code("UP"@) == Some(0x26u32),
        key_code_of("UP"@) == Some(0x26u32),
{
    reveal_strlit("UP");
    reveal_strlit("F1");
    assert("UP"@[0] != "F1"@[0]);
    reveal_strlit("F2");
    assert("UP"@[0] != "F2"@[0]);
    reveal_strlit("F3");
    assert("UP"@[0] != "F3"@[0]);
    reveal_strlit("F4");
    assert("UP"@[0] != "F4"@[0]);
    reveal_strlit("F5");
    assert("UP"@[0] != "F5"@[0]);
    reveal_strlit("F6");
    assert("UP"@[0] != "F6"@[0]);
    reveal_strlit("F7");
    assert("UP"@[0] != "F7"@[0]);
    reveal_strlit("F8");
    assert("UP"@[0] != "F8"@[0]);
    reveal_strlit("F9");
    assert("UP"@[0] != "F9"@[0]);
    reveal_strlit("F10");
    assert("UP"@.len() != "F10"@.len());
    reveal_strlit("F11");
    assert("UP"@.len() != "F11"@.len());
    reveal_strlit("F12");
    assert("UP"@.len() != "F12"@.len());
    reveal_strlit("SPACE");
    assert("UP"@.len() != "SPACE"@.len());
    reveal_strlit("ENTER");
    assert("UP"@.len() != "ENTER"@.len());
    reveal_strlit("RETURN");
    assert("UP"@.len() != "RETURN"@.len());
    reveal_strlit("TAB");
    assert("UP"@.len() != "TAB"@.len());
    reveal_strlit("ESC");
    assert("UP"@.len() != "ESC"@.len());
    reveal_strlit("ESCAPE");
    assert("UP"@.len() != "ESCAPE"@.len());
    reveal_strlit("BACKSPACE");
    assert("UP"@.len() != "BACKSPACE"@.len());
    reveal_strlit("BACK");
    assert("UP"@.len() != "BACK"@.len());
    reveal_strlit("INSERT");
    assert("UP"@.len() != "INSERT"@.len());
    reveal_strlit("DELETE");
    assert("UP"@.len() != "DELETE"@.len());
    reveal_strlit("DEL");
    assert("UP"@.len() != "DEL"@.len());
    reveal_strlit("HOME");
    assert("UP"@.len() != "HOME"@.len());
    reveal_strlit("END");
    assert("UP"@.len() != "END"@.len());
    reveal_strlit("PAGEUP");
    assert("UP"@.len() != "PAGEUP"@.len());
    reveal_strlit("PGUP");
    assert("UP"@.len() != "PGUP"@.len());
    reveal_strlit("PAGEDOWN");
    assert("UP"@.len() != "PAGEDOWN"@.len());
    reveal_strlit("PGDN");
    assert("UP"@.len() != "PGDN"@.len());
    reveal_strlit("LEFT");
    assert("UP"@.len() != "LEFT"@.len());
    lemma_plain_name("UP"@);
}

proof fn lemma_named_key_right()
    ensures
        named_key_code("RIGHT"@) == Some(0x27u32),
        key_code_of("RIGHT"@) == Some(0x27u32),
{
    reveal_strlit("RIGHT");
    reveal_strlit("F1");
    assert("RIGHT"@.len() != "F1"@.len());
    reveal_strlit("F2");
    assert("RIGHT"@.len() != "F2"@.len());
    reveal_strlit("F3");
    assert("RIGHT"@.len() != "F3"@.len());
    reveal_strlit("F4");
    assert("RIGHT"@.len() != "F4"@.len());
    reveal_strlit("F5");
    assert("RIGHT"@.len() != "F5"@.len());
    reveal_strlit("F6");
    assert("RIGHT"@.len() != "F6"@.len());
    reveal_strlit("F7");
    assert("RIGHT"@.len() != "F7"@.len());
    reveal_strlit("F8");
    assert("RIGHT"@.len() != "F8"@.len());
    reveal_strlit("F9");
    assert("RIGHT"@.len() != "F9"@.len());
    reveal_strlit("F10");
    assert("RIGHT"@.len() != "F10"@.len());
    reveal_strlit("F11");
    assert("RIGHT"@.len() != "F11"@.len());
    reveal_strlit("F12");
    assert("RIGHT"@.len() != "F12"@.len());
    reveal_strlit("SPACE");
    assert("RIGHT"@[0] != "SPACE"@[0]);
    reveal_strlit("ENTER");
    assert("RIGHT"@[0] != "ENTER"@[0]);
    reveal_strlit("RETURN");
    assert("RIGHT"@.len() != "RETURN"@.len());
    reveal_strlit("TAB");
    assert("RIGHT"@.len() != "TAB"@.len());
    reveal_strlit("ESC");
    assert("RIGHT"@.len() != "ESC"@.len());
    reveal_strlit("ESCAPE");
    assert("RIGHT"@.len() != "ESCAPE"@.len());
    reveal_strlit("BACKSPACE");
    assert("RIGHT"@.len() != "BACKSPACE"@.len());
    reveal_strlit("BACK");
    assert("RIGHT"@.len() != "BACK"@.len());
    reveal_strlit("INSERT");
    assert("RIGHT"@.len() != "INSERT"@.len());
    reveal_strlit("DELETE");
    assert("RIGHT"@.len() != "DELETE"@.len());
    reveal_strlit("DEL");
    assert("RIGHT"@.len() != "DEL"@.len());
    reveal_strlit("HOME");
    assert("RIGHT"@.len() != "HOME"@.len());
    reveal_strlit("END");
    assert("RIGHT"@.len() != "END"@.len());
    reveal_strlit("PAGEUP");
    assert("RIGHT"@.len() != "PAGEUP"@.len());
    reveal_strlit("PGUP");
    assert("RIGHT"@.len() != "PGUP"@.len());
    reveal_strlit("PAGEDOWN");
    assert("RIGHT"@.len() != "PAGEDOWN"@.len());
    reveal_strlit("PGDN");
    assert("RIGHT"@.len() != "PGDN"@.len());
    reveal_strlit("LEFT");
    assert("RIGHT"@.len() != "LEFT"@.len());
    reveal_strlit("UP");
    assert("RIGHT"@.len() != "UP"@.len());
    lemma_plain_name("RIGHT"@);
}

proof fn lemma_named_key_down()
    ensures
        named_key_code("DOWN"@) == Some(0x28u32),
        key_code_of("DOWN"@) == Some(0x28u32),
{
    reveal_strlit("DOWN");
    reveal_strlit("F1");
    assert("DOWN"@.len() != "F1"@.len());
    reveal_strlit("F2");
    assert("DOWN"@.len() != "F2"@.len());
    reveal_strlit("F3");
    assert("DOWN"@.len() != "F3"@.len());
    reveal_strlit("F4");
    assert("DOWN"@.len() != "F4"@.len());
    reveal_strlit("F5");
    assert("DOWN"@.len() != "F5"@.len());
    reveal_strlit("F6");
    assert("DOWN"@.len() != "F6"@.len());
    reveal_strlit("F7");
    assert("DOWN"@.len() != "F7"@.len());
    reveal_strlit("F8");
    assert("DOWN"@.len() != "F8"@.len());
    reveal_strlit("F9");
    assert("DOWN"@.len() != "F9"@.len());
    reveal_strlit("F10");
    assert("DOWN"@.len() != "F10"@.len());
    reveal_strlit("F11");
    assert("DOWN"@.len() != "F11"@.len());
    reveal_strlit("F12");
    assert("DOWN"@.len() != "F12"@.len());
    reveal_strlit("SPACE");
    assert("DOWN"@.len() != "SPACE"@.len());
    reveal_strlit("ENTER");
    assert("DOWN"@.len() != "ENTER"@.len());
    reveal_strlit("RETURN");
    assert("DOWN"@.len() != "RETURN"@.len());
    reveal_strlit("TAB");
    assert("DOWN"@.len() != "TAB"@.len());
    reveal_strlit("ESC");
    assert("DOWN"@.len() != "ESC"@.len());
    reveal_strlit("ESCAPE");
    assert("DOWN"@.len() != "ESCAPE"@.len());
    reveal_strlit("BACKSPACE");
    assert("DOWN"@.len() != "BACKSPACE"@.len());
    reveal_strlit("BACK");
    assert("DOWN"@[0] != "BACK"@[0]);
    reveal_strlit("INSERT");
    assert("DOWN"@.len() != "INSERT"@.len());
    reveal_strlit("DELETE");
    assert("DOWN"@.len() != "DELETE"@.len());
    reveal_strlit("DEL");
    assert("DOWN"@.len() != "DEL"@.len());
    reveal_strlit("HOME");
    assert("DOWN"@[0] != "HOME"@[0]);
    reveal_strlit("END");
    assert("DOWN"@.len() != "END"@.len());
    reveal_strlit("PAGEUP");
    assert("DOWN"@.len() != "PAGEUP"@.len());
    reveal_strlit("PGUP");
    assert("DOWN"@[0] != "PGUP"@[0]);
    reveal_strlit("PAGEDOWN");
    assert("DOWN"@.len() != "PAGEDOWN"@.len());
    reveal_strlit("PGDN");
    assert("DOWN"@[0] != "PGDN"@[0]);
    reveal_strlit("LEFT");
    assert("DOWN"@[0] != "LEFT"@[0]);
    reveal_strlit("UP");
    assert("DOWN"@.len() != "UP"@.len());
    reveal_strlit("RIGHT");
    assert("DOWN"@.len() != "RIGHT"@.len());
    lemma_plain_name("DOWN"@);
}

/// A single ASCII letter or digit stands for the character code of its upper
/// case: `a`..`z` for 0x41..0x5A like `A`..`Z`, and `0`..`9` for 0x30..0x39.
pub proof fn lemma_single_character_keys(c: char)
    requires
        ('a' <= c && c <= 'z') || ('A' <= c && c <= 'Z') || ('0' <= c && c <= '9'),
    ensures
        'a' <= c && c <= 'z' ==> key_code_of(seq![c]) == Some((c as u32 - 32) as u32),
        !('a' <= c && c <= 'z') ==> key_code_of(seq![c]) == Some(c as u32),
{
    let s = seq![c];
    assert(trim_start(s) == s);
    assert(trim_end(s) == s);
}

/// A key name made only of whitespace, the empty name included, stands for
/// no key.
pub proof fn lemma_blank_key_name(key: Seq<char>)
    requires
        all_white_space(key),
    ensures
        key_code_of(key) == None::<u32>,
{
    lemma_key_code_ignores_surrounding_white_space(key, Seq::empty(), Seq::empty());
    assert(key + Seq::<char>::empty() + Seq::<char>::empty() =~= key);
    assert(trim(Seq::<char>::empty()) =~= Seq::<char>::empty());
}

/// The Win32 modifier flags for the hotkey of `cfg`.
pub fn get_modifiers_mask(cfg: &AppConfig) -> (mask: u32)
    ensures
        mask == modifier_mask(cfg.ctrl, cfg.alt, cfg.shift, cfg.win),
        mask & MOD_NOREPEAT != 0,
        (mask & MOD_CONTROL != 0) == cfg.ctrl,
        (mask & MOD_ALT != 0) == cfg.alt,
        (mask & MOD_SHIFT != 0) == cfg.shift,
        (mask & MOD_WIN != 0) == cfg.win,
        mask & !(MOD_NOREPEAT | MOD_CONTROL | MOD_ALT | MOD_SHIFT | MOD_WIN) == 0,
{
    let mut mods = MOD_NOREPEAT;
    mods = mods | if cfg.ctrl { MOD_CONTROL } else { 0 };
    mods = mods | if cfg.alt { MOD_ALT } else { 0 };
    mods = mods | if cfg.shift { MOD_SHIFT } else { 0 };
    mods = mods | if cfg.win { MOD_WIN } else { 0 };
    proof {
        lemma_modifier_mask_decodes(cfg.ctrl, cfg.alt, cfg.shift, cfg.win);
    }
    mods
}

/// Each modifier key can be read back from the mask: its flag is set exactly
/// when the key is enabled, `MOD_NOREPEAT` is always set, and no other bit is.
pub proof fn lemma_modifier_mask_decodes(ctrl: bool, alt: bool, shift: bool, win: bool)
    ensures
        modifier_mask(ctrl, alt, shift, win) & MOD_NOREPEAT != 0,
        (modifier_mask(ctrl, alt, shift, win) & MOD_CONTROL != 0) == ctrl,
        (modifier_mask(ctrl, alt, shift, win) & MOD_ALT != 0) == alt,
        (modifier_mask(ctrl, alt, shift, win) & MOD_SHIFT != 0) == shift,
        (modifier_mask(ctrl, alt, shift, win) & MOD_WIN != 0) == win,
        modifier_mask(ctrl, alt, shift, win) & !(MOD_NOREPEAT | MOD_CONTROL | MOD_ALT | MOD_SHIFT
            | MOD_WIN) == 0,
{
    let m = modifier_mask(ctrl, alt, shift, win);
    assert(m == 0x4000u32 | (if ctrl { 2u32 } else { 0u32 }) | (if alt { 1u32 } else { 0u32 }) | (
    if shift { 4u32 } else { 0u32 }) | (if win { 8u32 } else { 0u32 }));
    assert(m == 0x4000u32 | (if ctrl { 2u32 } else { 0u32 }) | (if alt { 1u32 } else { 0u32 }) | (
    if shift { 4u32 } else { 0u32 }) | (if win { 8u32 } else { 0u32 }) ==> {
        &&& m & 0x4000u32 != 0
        &&& (m & 2u32 != 0) == ctrl
        &&& (m & 1u32 != 0) == alt
        &&& (m & 4u32 != 0) == shift
        &&& (m & 8u32 != 0) == win
        &&& m & !(0x4000u32 | 2u32 | 1u32 | 4u32 | 8u32) == 0
    }) by (bit_vector);
}

/// What `RegisterHotKey` is called with: the modifier flags and the
/// virtual-key code.
#[derive(Debug, Clone, Copy, PartialEq, Eq)]
pub struct HotkeyBinding {
    pub modifiers: u32,
    pub key_code: u32,
}

/// The message given when the configured key name is not a known key.
pub open spec fn unknown_key_message(key: Seq<char>) -> Seq<char> {
    "Unknown or invalid key name: '"@ + key + "'"@
}

/// The message given when Windows refuses to register the hotkey.
pub open spec fn register_failed_message(display: Seq<char>) -> Seq<char> {
    "Failed to register hotkey '"@ + display
        + "'. It might already be in use by another application."@
}

/// The registration that the hotkey of `cfg` asks for, or the message that
/// explains why its key name cannot be registered.
pub fn hotkey_registration(cfg: &AppConfig) -> (r: Result<HotkeyBinding, String>)
    ensures
        key_code_of(cfg.key@) is Some ==> r == Ok::<HotkeyBinding, String>(
            HotkeyBinding {
                modifiers: modifier_mask(cfg.ctrl, cfg.alt, cfg.shift, cfg.win),
                key_code: key_code_of(cfg.key@).unwrap(),
            },
        ),
        key_code_of(cfg.key@) is None ==> r is Err && r->Err_0@ == unknown_key_message(cfg.key@),
{
    match parse_key_str(cfg.key.as_str()) {
        Some(vk) => Ok(HotkeyBinding { modifiers: get_modifiers_mask(cfg), key_code: vk }),
        None => {
            let mut msg = String::from_str("Unknown or invalid key name: '");
            msg.append(cfg.key.as_str());
            msg.append("'");
            Err(msg)
        },
    }
}

/// The message shown when the hotkey of `cfg` is already taken.
pub fn registration_failure_message(cfg: &AppConfig) -> (msg: String)
    ensures
        msg@ == register_failed_message(cfg.display_text()),
{
    let mut msg = String::from_str("Failed to register hotkey '");
    let shown = cfg.hotkey_display();
    msg.append(shown.as_str());
    msg.append("'. It might already be in use by another application.");
    msg
}

} // verus!
