//! The persisted hotkey and behaviour settings, and how they are shown.
use vstd::prelude::*;

verus! {

/// The user's settings: the modifier keys of the recenter hotkey, its trigger
/// key by name, and the two behaviour switches.
#[derive(Debug, Clone)]
pub struct AppConfig {
    pub ctrl: bool,
    pub alt: bool,
    pub shift: bool,
    pub win: bool,
    pub key: String,
    pub move_window: bool,
    pub start_with_windows: bool,
}

/// The labels joined into the hotkey text: the enabled modifiers in the order
/// Ctrl, Alt, Shift, Win, then the key name.
pub open spec fn hotkey_parts(ctrl: bool, alt: bool, shift: bool, win: bool, key: Seq<char>) -> Seq<
    Seq<char>,
> {
    (if ctrl {
        seq!["Ctrl"@]
    } else {
        Seq::empty()
    }) + (if alt {
        seq!["Alt"@]
    } else {
        Seq::empty()
    }) + (if shift {
        seq!["Shift"@]
    } else {
        Seq::empty()
    }) + (if win {
        seq!["Win"@]
    } else {
        Seq::empty()
    }) + seq![key]
}

/// `parts` joined with `sep` between neighbours, as `[T]::join` does.
pub open spec fn join_with(parts: Seq<Seq<char>>, sep: Seq<char>) -> Seq<char>
    decreases parts.len(),
{
    if parts.len() == 0 {
        Seq::empty()
    } else if parts.len() == 1 {
        parts[0]
    } else {
        join_with(parts.drop_last(), sep) + sep + parts.last()
    }
}

/// Joining one more part appends the separator and that part.
pub proof fn lemma_join_push(parts: Seq<Seq<char>>, sep: Seq<char>, p: Seq<char>)
    ensures
        join_with(parts.push(p), sep) == if parts.len() == 0 {
            p
        } else {
            join_with(parts, sep) + sep + p
        },
{
    assert(parts.push(p).drop_last() =~= parts);
}

impl AppConfig {
    /// The hotkey as it is shown to the user, e.g. `Ctrl + Alt + C`.
    pub open spec fn display_text(&self) -> Seq<char> {
        join_with(hotkey_parts(self.ctrl, self.alt, self.shift, self.win, self.key@), " + "@)
    }

    /// Whether at least one modifier key is part of the hotkey.
    pub open spec fn has_modifier(&self) -> bool {
        self.ctrl || self.alt || self.shift || self.win
    }

    /// This configuration with the window-moving switch flipped.
    pub open spec fn with_move_window_toggled(self) -> AppConfig {
        AppConfig { move_window: !self.move_window, ..self }
    }

    /// This configuration with the start-with-Windows switch flipped.
    pub open spec fn with_startup_toggled(self) -> AppConfig {
        AppConfig { start_with_windows: !self.start_with_windows, ..self }
    }

    /// The hotkey as text: the enabled modifiers, then the key name, joined
    /// by ` + `.
    pub fn hotkey_display(&self) -> (s: String)
        ensures
            s@ == self.display_text(),
            s@ == label_if(self.ctrl, "Ctrl"@) + label_if(self.alt, "Alt"@) + label_if(
                self.shift,
                "Shift"@,
            ) + label_if(self.win, "Win"@) + self.key@,
    {
        let ghost mut parts: Seq<Seq<char>> = Seq::empty();
        let mut out = String::new();
        let mut first = true;
        if self.ctrl {
            push_part(&mut out, first, "Ctrl");
            proof {
                lemma_join_push(parts, " + "@, "Ctrl"@);
                parts = parts.push("Ctrl"@);
            }
            first = false;
        }
        if self.alt {
            push_part(&mut out, first, "Alt");
            proof {
                lemma_join_push(parts, " + "@, "Alt"@);
                parts = parts.push("Alt"@);
            }
            first = false;
        }
        if self.shift {
            push_part(&mut out, first, "Shift");
            proof {
                lemma_join_push(parts, " + "@, "Shift"@);
                parts = parts.push("Shift"@);
            }
            first = false;
        }
        if self.win {
            push_part(&mut out, first, "Win");
            proof {
                lemma_join_push(parts, " + "@, "Win"@);
                parts = parts.push("Win"@);
            }
            first = false;
        }
        push_part(&mut out, first, self.key.as_str());
        proof {
            lemma_join_push(parts, " + "@, self.key@);
            parts = parts.push(self.key@);
            assert(parts =~= hotkey_parts(self.ctrl, self.alt, self.shift, self.win, self.key@));
            lemma_display_text_closed_form(*self);
        }
        out
    }

    /// Flips whether the active window is moved along with the cursor.
    pub fn toggle_move_window(&mut self)
        ensures
            *final(self) == old(self).with_move_window_toggled(),
            final(self).move_window == !old(self).move_window,
            final(self).start_with_windows == old(self).start_with_windows,
            final(self).ctrl == old(self).ctrl && final(self).alt == old(self).alt,
            final(self).shift == old(self).shift && final(self).win == old(self).win,
            final(self).key == old(self).key,
    {
        self.move_window = !self.move_window;
    }

    /// Flips whether the program starts with Windows.
    pub fn toggle_start_with_windows(&mut self)
        ensures
            *final(self) == old(self).with_startup_toggled(),
            final(self).start_with_windows == !old(self).start_with_windows,
            final(self).move_window == old(self).move_window,
            final(self).ctrl == old(self).ctrl && final(self).alt == old(self).alt,
            final(self).shift == old(self).shift && final(self).win == old(self).win,
            final(self).key == old(self).key,
    {
        self.start_with_windows = !self.start_with_windows;
    }

    /// Where the settings file lives, as path components: under the
    /// `APPDATA` folder when that is known, else a file in the working
    /// directory. `appdata` is the value of that variable.
    pub fn config_path(appdata: Option<&str>) -> (parts: Vec<String>)
        ensures
            appdata is Some ==> parts@.map_values(|p: String| p@) == seq![
                appdata.unwrap()@,
                "RecenterMouse"@,
                "config.json"@,
            ],
            appdata is None ==> parts@.map_values(|p: String| p@) == seq![
                "recenter_mouse_config.json"@,
            ],
    {
        let mut parts: Vec<String> = Vec::new();
        match appdata {
            Some(dir) => {
                parts.push(String::from_str(dir));
                parts.push(String::from_str("RecenterMouse"));
                parts.push(String::from_str("config.json"));
            },
            None => {
                parts.push(String::from_str("recenter_mouse_config.json"));
            },
        }
        assert(parts@.map_values(|p: String| p@) =~= match appdata {
            Some(dir) => seq![dir@, "RecenterMouse"@, "config.json"@],
            None => seq!["recenter_mouse_config.json"@],
        });
        parts
    }

    /// The configuration in force after an attempt to read the settings
    /// file, and whether it has to be written back: the file's contents when
    /// they could be read and parsed, else the defaults, which are then saved.
    pub fn load(parsed: Option<AppConfig>) -> (r: (AppConfig, bool))
        ensures
            parsed is Some ==> r.0 == parsed.unwrap() && !r.1,
            parsed is None ==> r.0.is_default() && r.1,
    {
        match parsed {
            Some(cfg) => (cfg, false),
            None => (AppConfig::default(), true),
        }
    }

    /// The factory settings: Ctrl + Alt + C, the window moves along, no
    /// start with Windows.
    pub open spec fn is_default(&self) -> bool {
        &&& self.ctrl
        &&& self.alt
        &&& !self.shift
        &&& !self.win
        &&& self.key@ == "C"@
        &&& self.move_window
        &&& !self.start_with_windows
    }
}

/// Each part followed by the separator, all concatenated.
pub open spec fn with_separators(parts: Seq<Seq<char>>, sep: Seq<char>) -> Seq<char>
    decreases parts.len(),
{
    if parts.len() == 0 {
        Seq::empty()
    } else {
        with_separators(parts.drop_last(), sep) + parts.last() + sep
    }
}

/// Joining parts followed by a last one puts the separator after each of the
/// first parts.
proof fn lemma_join_as_separated(parts: Seq<Seq<char>>, sep: Seq<char>, last: Seq<char>)
    ensures
        join_with(parts.push(last), sep) == with_separators(parts, sep) + last,
    decreases parts.len(),
{
    lemma_join_push(parts, sep, last);
    if parts.len() == 0 {
        assert(with_separators(parts, sep) + last =~= last);
    } else {
        let init = parts.drop_last();
        assert(init.push(parts.last()) =~= parts);
        lemma_join_as_separated(init, sep, parts.last());
        assert(with_separators(parts, sep) + last =~= with_separators(init, sep) + parts.last()
            + sep + last);
    }
}

/// The text of an optional hotkey label: the label and ` + ` when it is
/// enabled, nothing otherwise.
pub open spec fn label_if(enabled: bool, label: Seq<char>) -> Seq<char> {
    if enabled {
        label + " + "@
    } else {
        Seq::empty()
    }
}

/// The shown hotkey is, in this order, `Ctrl + ` when Ctrl is enabled,
/// `Alt + ` when Alt is, `Shift + ` when Shift is, `Win + ` when Win is, and
/// then the key name: every enabled modifier appears, no disabled one does.
pub proof fn lemma_display_text_closed_form(cfg: AppConfig)
    ensures
        cfg.display_text() == label_if(cfg.ctrl, "Ctrl"@) + label_if(cfg.alt, "Alt"@) + label_if(
            cfg.shift,
            "Shift"@,
        ) + label_if(cfg.win, "Win"@) + cfg.key@,
{
    let sep = " + "@;
    let p0: Seq<Seq<char>> = Seq::empty();
    let p1 = if cfg.ctrl { p0.push("Ctrl"@) } else { p0 };
    let p2 = if cfg.alt { p1.push("Alt"@) } else { p1 };
    let p3 = if cfg.shift { p2.push("Shift"@) } else { p2 };
    let p4 = if cfg.win { p3.push("Win"@) } else { p3 };
    assert(with_separators(p0, sep) =~= Seq::<char>::empty());
    assert(with_separators(p1, sep) =~= label_if(cfg.ctrl, "Ctrl"@)) by {
        if cfg.ctrl {
            assert(p1.drop_last() =~= p0);
        }
    }
    assert(with_separators(p2, sep) =~= with_separators(p1, sep) + label_if(cfg.alt, "Alt"@)) by {
        if cfg.alt {
            assert(p2.drop_last() =~= p1);
        }
    }
    assert(with_separators(p3, sep) =~= with_separators(p2, sep) + label_if(cfg.shift, "Shift"@))
        by {
        if cfg.shift {
            assert(p3.drop_last() =~= p2);
        }
    }
    assert(with_separators(p4, sep) =~= with_separators(p3, sep) + label_if(cfg.win, "Win"@)) by {
        if cfg.win {
            assert(p4.drop_last() =~= p3);
        }
    }
    assert(hotkey_parts(cfg.ctrl, cfg.alt, cfg.shift, cfg.win, cfg.key@) =~= p4.push(cfg.key@));
    lemma_join_as_separated(p4, sep, cfg.key@);
    assert(cfg.display_text() =~= label_if(cfg.ctrl, "Ctrl"@) + label_if(cfg.alt, "Alt"@)
        + label_if(cfg.shift, "Shift"@) + label_if(cfg.win, "Win"@) + cfg.key@);
}

/// Flipping the window switch changes that switch and keeps every other
/// setting.
pub proof fn lemma_move_window_toggle_flips(cfg: AppConfig)
    ensures
        cfg.with_move_window_toggled().move_window == !cfg.move_window,
        cfg.with_move_window_toggled().start_with_windows == cfg.start_with_windows,
        cfg.with_move_window_toggled().ctrl == cfg.ctrl,
        cfg.with_move_window_toggled().alt == cfg.alt,
        cfg.with_move_window_toggled().shift == cfg.shift,
        cfg.with_move_window_toggled().win == cfg.win,
        cfg.with_move_window_toggled().key == cfg.key,
{
}

/// Flipping the startup switch changes that switch and keeps every other
/// setting.
pub proof fn lemma_startup_toggle_flips(cfg: AppConfig)
    ensures
        cfg.with_startup_toggled().start_with_windows == !cfg.start_with_windows,
        cfg.with_startup_toggled().move_window == cfg.move_window,
        cfg.with_startup_toggled().ctrl == cfg.ctrl,
        cfg.with_startup_toggled().alt == cfg.alt,
        cfg.with_startup_toggled().shift == cfg.shift,
        cfg.with_startup_toggled().win == cfg.win,
        cfg.with_startup_toggled().key == cfg.key,
{
}

/// Flipping a switch twice gives back the configuration one started from.
pub proof fn lemma_toggles_undo_themselves(cfg: AppConfig)
    ensures
        cfg.with_move_window_toggled().with_move_window_toggled() == cfg,
        cfg.with_startup_toggled().with_startup_toggled() == cfg,
        cfg.with_move_window_toggled().display_text() == cfg.display_text(),
        cfg.with_startup_toggled().display_text() == cfg.display_text(),
{
}

impl Default for AppConfig {
    fn default() -> (cfg: Self)
        ensures
            cfg.is_default(),
    {
        AppConfig {
            ctrl: true,
            alt: true,
            shift: false,
            win: false,
            key: String::from_str("C"),
            move_window: true,
            start_with_windows: false,
        }
    }
}

/// Appends `part` to the hotkey text, after a ` + ` unless it is the first.
fn push_part(out: &mut String, first: bool, part: &str)
    ensures
        final(out)@ == if first {
            old(out)@ + part@
        } else {
            old(out)@ + " + "@ + part@
        },
{
    if !first {
        out.append(" + ");
    }
    out.append(part);
}

} // verus!
