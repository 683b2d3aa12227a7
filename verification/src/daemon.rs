//! The program's control flow: the command line, how it starts, what a
//! recenter does, and how the hidden main window answers its messages.
use vstd::prelude::*;
use crate::config::AppConfig;
use crate::hotkey::RECENTER_HOTKEY_ID;
use crate::monitor::{get_rect_center, Rect};
use crate::text::str_equal;
use crate::tray::{
    ID_TRAY_EXIT, ID_TRAY_RECENTER, ID_TRAY_SETTINGS, ID_TRAY_TOGGLE_STARTUP,
    ID_TRAY_TOGGLE_WINDOW, WM_APP_RELOAD_CONFIG, WM_APP_TRAY_MSG,
};

verus! {

// Win32 window messages that the main window answers.
pub const WM_DESTROY: u32 = 0x0002;
pub const WM_CONTEXTMENU: u32 = 0x007B;
pub const WM_COMMAND: u32 = 0x0111;
pub const WM_HOTKEY: u32 = 0x0312;
pub const WM_LBUTTONUP: u32 = 0x0202;
pub const WM_LBUTTONDBLCLK: u32 = 0x0203;
pub const WM_RBUTTONUP: u32 = 0x0205;

/// The options given on the command line.
#[derive(Debug, Clone, Copy, PartialEq, Eq, Structural)]
pub struct CliOptions {
    /// `--once` or `-o`: recenter once, then exit.
    pub once: bool,
    /// `--settings` or `-s`: open the settings dialog.
    pub settings: bool,
    /// `--headless`: no tray icon.
    pub headless: bool,
    /// `--help` or `-h`: show the help and exit.
    pub help: bool,
}

/// `--help` or `-h`.
pub open spec fn is_help_arg(a: Seq<char>) -> bool {
    a == "--help"@ || a == "-h"@
}

/// `--once` or `-o`.
pub open spec fn is_once_arg(a: Seq<char>) -> bool {
    a == "--once"@ || a == "-o"@
}

/// `--settings` or `-s`.
pub open spec fn is_settings_arg(a: Seq<char>) -> bool {
    a == "--settings"@ || a == "-s"@
}

/// `--headless`.
pub open spec fn is_headless_arg(a: Seq<char>) -> bool {
    a == "--headless"@
}

/// The command-line switches other than help.
pub enum CliFlag {
    Once,
    Settings,
    Headless,
}

/// Whether the argument `a` sets the switch `flag`.
pub open spec fn sets_flag(flag: CliFlag, a: Seq<char>) -> bool {
    match flag {
        CliFlag::Once => is_once_arg(a),
        CliFlag::Settings => is_settings_arg(a),
        CliFlag::Headless => is_headless_arg(a),
    }
}

/// No help option stands among the arguments before position `i` (the
/// program's name, at position 0, is not an argument).
pub open spec fn no_help_before(args: Seq<Seq<char>>, i: int) -> bool {
    forall|j: int| 1 <= j < i ==> !is_help_arg(#[trigger] args[j])
}

/// An argument that sets `flag` stands before the first help option.
pub open spec fn given_before_help(args: Seq<Seq<char>>, flag: CliFlag) -> bool {
    exists|i: int| 1 <= i < args.len() && #[trigger] sets_flag(flag, args[i]) && no_help_before(args, i)
}

/// An argument that sets `flag` stands before position `i`.
pub open spec fn given_before(args: Seq<Seq<char>>, flag: CliFlag, i: int) -> bool {
    exists|j: int| 1 <= j < i && j < args.len() && #[trigger] sets_flag(flag, args[j])
}

/// The options that the command line `args` gives. Arguments are read in
/// order and reading stops at the first help option; unknown arguments are
/// ignored.
pub open spec fn cli_options(args: Seq<Seq<char>>) -> CliOptions {
    CliOptions {
        once: given_before_help(args, CliFlag::Once),
        settings: given_before_help(args, CliFlag::Settings),
        headless: given_before_help(args, CliFlag::Headless),
        help: exists|i: int| 1 <= i < args.len() && is_help_arg(#[trigger] args[i]),
    }
}

/// The text of each argument.
pub open spec fn arg_texts(args: Seq<String>) -> Seq<Seq<char>> {
    args.map_values(|a: String| a@)
}

/// Reads the command line `args`, whose first element is the program's name.
pub fn parse_cli(args: &Vec<String>) -> (opts: CliOptions)
    ensures
        opts == cli_options(arg_texts(args@)),
{
    let ghost texts = arg_texts(args@);
    proof {
        reveal_strlit("--help");
        reveal_strlit("-h");
        reveal_strlit("--once");
        reveal_strlit("-o");
        reveal_strlit("--settings");
        reveal_strlit("-s");
        reveal_strlit("--headless");
    }
    let mut once = false;
    let mut settings = false;
    let mut headless = false;
    let mut i: usize = 1;
    while i < args.len()
        invariant
            texts == arg_texts(args@),
            1 <= i,
            i <= args@.len() || args@.len() == 0,
            no_help_before(texts, i as int),
            once == given_before(texts, CliFlag::Once, i as int),
            settings == given_before(texts, CliFlag::Settings, i as int),
            headless == given_before(texts, CliFlag::Headless, i as int),
        decreases args.len() - i,
    {
        let arg = args[i].as_str();
        assert(texts[i as int] == arg@);
        proof {
            lemma_cli_literals();
            lemma_given_before_step(texts, CliFlag::Once, i as int);
            lemma_given_before_step(texts, CliFlag::Settings, i as int);
            lemma_given_before_step(texts, CliFlag::Headless, i as int);
        }
        if str_equal(arg, "--once") || str_equal(arg, "-o") {
            once = true;
        } else if str_equal(arg, "--settings") || str_equal(arg, "-s") {
            settings = true;
        } else if str_equal(arg, "--headless") {
            headless = true;
        } else if str_equal(arg, "--help") || str_equal(arg, "-h") {
            let opts = CliOptions { once, settings, headless, help: true };
            proof {
                lemma_cli_options_at(texts, i as int);
            }
            return opts;
        }
        i = i + 1;
    }
    proof {
        lemma_cli_options_at(texts, i as int);
    }
    CliOptions { once, settings, headless, help: false }
}

/// The option spellings are pairwise different.
proof fn lemma_cli_literals()
    ensures
        !is_help_arg("--once"@) && !is_help_arg("-o"@),
        !is_help_arg("--settings"@) && !is_help_arg("-s"@),
        !is_help_arg("--headless"@),
        !sets_flag(CliFlag::Once, "--help"@) && !sets_flag(CliFlag::Once, "-h"@),
        !sets_flag(CliFlag::Settings, "--help"@) && !sets_flag(CliFlag::Settings, "-h"@),
        !sets_flag(CliFlag::Headless, "--help"@) && !sets_flag(CliFlag::Headless, "-h"@),
        !sets_flag(CliFlag::Settings, "--once"@) && !sets_flag(CliFlag::Settings, "-o"@),
        !sets_flag(CliFlag::Headless, "--once"@) && !sets_flag(CliFlag::Headless, "-o"@),
        !sets_flag(CliFlag::Once, "--settings"@) && !sets_flag(CliFlag::Once, "-s"@),
        !sets_flag(CliFlag::Headless, "--settings"@) && !sets_flag(CliFlag::Headless, "-s"@),
        !sets_flag(CliFlag::Once, "--headless"@) && !sets_flag(CliFlag::Settings, "--headless"@),
{
    reveal_strlit("--help");
    reveal_strlit("-h");
    reveal_strlit("--once");
    reveal_strlit("-o");
    reveal_strlit("--settings");
    reveal_strlit("-s");
    reveal_strlit("--headless");
    assert("--help"@[2] != "--once"@[2]);
    assert("-h"@[1] != "-o"@[1]);
    assert("-h"@[1] != "-s"@[1]);
    assert("-o"@[1] != "-s"@[1]);
    assert("--headless"@.len() != "--help"@.len());
    assert("--headless"@.len() != "--once"@.len());
    assert("--headless"@[2] != "--settings"@[2]);
    assert("--settings"@.len() != "--help"@.len());
    assert("--settings"@.len() != "--once"@.len());
}

/// Extending the range by one position adds that position's argument.
proof fn lemma_given_before_step(texts: Seq<Seq<char>>, flag: CliFlag, i: int)
    requires
        1 <= i < texts.len(),
    ensures
        given_before(texts, flag, i + 1) == (given_before(texts, flag, i) || sets_flag(
            flag,
            texts[i],
        )),
{
    if given_before(texts, flag, i + 1) && !sets_flag(flag, texts[i]) {
        let j = choose|j: int| 1 <= j < i + 1 && j < texts.len() && #[trigger] sets_flag(flag, texts[j]);
        assert(j != i);
    }
    if sets_flag(flag, texts[i]) {
        assert(1 <= i < i + 1 && i < texts.len() && sets_flag(flag, texts[i]));
    }
}

/// Up to a position `i` holding the first help option, or past the end when
/// there is none, "given before help" means "given before `i`".
proof fn lemma_given_before_help(texts: Seq<Seq<char>>, i: int, flag: CliFlag)
    requires
        1 <= i,
        no_help_before(texts, i),
        i >= texts.len() || is_help_arg(texts[i]),
        i < texts.len() ==> !sets_flag(flag, texts[i]),
    ensures
        given_before_help(texts, flag) == given_before(texts, flag, i),
{
    if given_before_help(texts, flag) {
        let j = choose|j: int|
            1 <= j < texts.len() && #[trigger] sets_flag(flag, texts[j]) && no_help_before(texts, j);
        if j >= i {
            assert(i < texts.len());
            assert(j != i);
            assert(!is_help_arg(texts[i]));
        }
        assert(1 <= j < i && j < texts.len() && sets_flag(flag, texts[j]));
    }
    if given_before(texts, flag, i) {
        let j = choose|j: int| 1 <= j < i && j < texts.len() && #[trigger] sets_flag(flag, texts[j]);
        assert(no_help_before(texts, j));
        assert(1 <= j < texts.len() && sets_flag(flag, texts[j]) && no_help_before(texts, j));
    }
}

/// The options read up to the first help option, or to the end.
proof fn lemma_cli_options_at(texts: Seq<Seq<char>>, i: int)
    requires
        1 <= i,
        no_help_before(texts, i),
        i >= texts.len() || is_help_arg(texts[i]),
    ensures
        cli_options(texts).help == (i < texts.len()),
        cli_options(texts).once == given_before(texts, CliFlag::Once, i),
        cli_options(texts).settings == given_before(texts, CliFlag::Settings, i),
        cli_options(texts).headless == given_before(texts, CliFlag::Headless, i),
{
    lemma_cli_literals();
    if i >= texts.len() {
        assert forall|j: int| 1 <= j < texts.len() implies !is_help_arg(#[trigger] texts[j]) by {
            assert(no_help_before(texts, i));
        }
    }
    lemma_given_before_help(texts, i, CliFlag::Once);
    lemma_given_before_help(texts, i, CliFlag::Settings);
    lemma_given_before_help(texts, i, CliFlag::Headless);
}

/// An option given before any help option is read: `--once` or `-o` sets
/// `once`, `--settings` or `-s` sets `settings`, `--headless` sets
/// `headless`; and any `--help` or `-h` after the program's name sets `help`.
pub proof fn lemma_cli_reads_options(args: Seq<Seq<char>>, i: int)
    requires
        1 <= i < args.len(),
        forall|j: int| 1 <= j < i ==> args[j] != "--help"@ && args[j] != "-h"@,
    ensures
        args[i] == "--once"@ || args[i] == "-o"@ ==> cli_options(args).once,
        args[i] == "--settings"@ || args[i] == "-s"@ ==> cli_options(args).settings,
        args[i] == "--headless"@ ==> cli_options(args).headless,
        args[i] == "--help"@ || args[i] == "-h"@ ==> cli_options(args).help,
{
    assert(no_help_before(args, i));
    if args[i] == "--once"@ || args[i] == "-o"@ {
        assert(sets_flag(CliFlag::Once, args[i]));
    }
    if args[i] == "--settings"@ || args[i] == "-s"@ {
        assert(sets_flag(CliFlag::Settings, args[i]));
    }
    if args[i] == "--headless"@ {
        assert(sets_flag(CliFlag::Headless, args[i]));
    }
}

/// An option that no argument after the program's name spells is not set,
/// and without `--help` or `-h` the help is not asked for.
pub proof fn lemma_cli_absent_options(args: Seq<Seq<char>>)
    ensures
        (forall|j: int| 1 <= j < args.len() ==> args[j] != "--once"@ && args[j] != "-o"@)
            ==> !cli_options(args).once,
        (forall|j: int| 1 <= j < args.len() ==> args[j] != "--settings"@ && args[j] != "-s"@)
            ==> !cli_options(args).settings,
        (forall|j: int| 1 <= j < args.len() ==> args[j] != "--headless"@)
            ==> !cli_options(args).headless,
        (forall|j: int| 1 <= j < args.len() ==> args[j] != "--help"@ && args[j] != "-h"@)
            ==> !cli_options(args).help,
{
}

/// How the program proceeds once it has read its command line.
#[derive(Debug, Clone, Copy, PartialEq, Eq, Structural)]
pub enum LaunchMode {
    /// Show the help and exit.
    ShowHelp,
    /// Recenter once and exit.
    RecenterOnce,
    /// Another instance runs: open a settings dialog of its own, then exit
    /// when it closes.
    SettingsOnly,
    /// Another instance runs: exit.
    Exit,
    /// Run the hotkey listener, with a tray icon unless headless, and open
    /// the settings dialog at once when asked to.
    Run { tray_icon: bool, open_settings: bool },
}

/// How the program proceeds, from its options and whether another instance
/// already holds the single-instance lock. A one-off recenter does not look
/// at the lock.
pub fn launch_mode(opts: &CliOptions, already_running: bool) -> (m: LaunchMode)
    ensures
        opts.help ==> m == LaunchMode::ShowHelp,
        !opts.help && opts.once ==> m == LaunchMode::RecenterOnce,
        !opts.help && !opts.once && already_running ==> m == if opts.settings {
            LaunchMode::SettingsOnly
        } else {
            LaunchMode::Exit
        },
        !opts.help && !opts.once && !already_running ==> m == (LaunchMode::Run {
            tray_icon: !opts.headless,
            open_settings: opts.settings,
        }),
{
    if opts.help {
        LaunchMode::ShowHelp
    } else if opts.once {
        LaunchMode::RecenterOnce
    } else if already_running {
        if opts.settings {
            LaunchMode::SettingsOnly
        } else {
            LaunchMode::Exit
        }
    } else {
        LaunchMode::Run { tray_icon: !opts.headless, open_settings: opts.settings }
    }
}

/// What the main window does in answer to a message.
#[derive(Debug, Clone, Copy, PartialEq, Eq, Structural)]
pub enum MessageAction {
    /// Recenter the cursor (and the window, when configured).
    Recenter,
    /// Show the tray icon's context menu.
    ShowTrayMenu,
    /// Flip the window switch and save the settings.
    ToggleMoveWindow,
    /// Open the settings dialog.
    OpenSettings,
    /// Flip the startup switch, update the registration and save.
    ToggleStartup,
    /// Destroy the main window.
    CloseWindow,
    /// Reload the settings and register the hotkey again; update the tray
    /// icon when there is one.
    ReloadConfig { update_tray: bool },
    /// The window is being destroyed: remove the tray icon when there is one,
    /// unregister the hotkey and quit the message loop.
    Shutdown { remove_tray: bool },
    /// The message is handled by doing nothing.
    Ignore,
    /// The message goes to the default window procedure.
    Default,
}

/// The tray-icon event carried in the `lparam` of a tray message.
pub open spec fn tray_event(lparam: isize) -> u32 {
    lparam as u32
}

/// The command identifier carried in the `wparam` of a command message.
pub open spec fn command_id(wparam: usize) -> usize {
    wparam & 0xFFFF
}

/// What the main window does with the message `msg` and its parameters;
/// `headless` says whether the program runs without a tray icon.
pub open spec fn message_action(msg: u32, wparam: usize, lparam: isize, headless: bool) -> MessageAction {
    if msg == WM_HOTKEY {
        if wparam == RECENTER_HOTKEY_ID as usize {
            MessageAction::Recenter
        } else {
            MessageAction::Ignore
        }
    } else if msg == WM_APP_TRAY_MSG {
        let event = tray_event(lparam);
        if event == WM_RBUTTONUP || event == WM_CONTEXTMENU {
            MessageAction::ShowTrayMenu
        } else if event == WM_LBUTTONUP || event == WM_LBUTTONDBLCLK {
            MessageAction::Recenter
        } else {
            MessageAction::Ignore
        }
    } else if msg == WM_COMMAND {
        let id = command_id(wparam);
        if id == ID_TRAY_RECENTER {
            MessageAction::Recenter
        } else if id == ID_TRAY_TOGGLE_WINDOW {
            MessageAction::ToggleMoveWindow
        } else if id == ID_TRAY_SETTINGS {
            MessageAction::OpenSettings
        } else if id == ID_TRAY_TOGGLE_STARTUP {
            MessageAction::ToggleStartup
        } else if id == ID_TRAY_EXIT {
            MessageAction::CloseWindow
        } else {
            MessageAction::Ignore
        }
    } else if msg == WM_APP_RELOAD_CONFIG {
        MessageAction::ReloadConfig { update_tray: !headless }
    } else if msg == WM_DESTROY {
        MessageAction::Shutdown { remove_tray: !headless }
    } else {
        MessageAction::Default
    }
}

/// Decides how the main window answers the message `msg`.
pub fn handle_message(msg: u32, wparam: usize, lparam: isize, headless: bool) -> (a: MessageAction)
    ensures
        a == message_action(msg, wparam, lparam, headless),
        msg == WM_HOTKEY && wparam == RECENTER_HOTKEY_ID as usize ==> a == MessageAction::Recenter,
        msg == WM_APP_RELOAD_CONFIG ==> a == (MessageAction::ReloadConfig { update_tray: !headless }),
        msg == WM_DESTROY ==> a == (MessageAction::Shutdown { remove_tray: !headless }),
{
    if msg == WM_HOTKEY {
        if wparam == RECENTER_HOTKEY_ID as usize {
            MessageAction::Recenter
        } else {
            MessageAction::Ignore
        }
    } else if msg == WM_APP_TRAY_MSG {
        let event = lparam as u32;
        if event == WM_RBUTTONUP || event == WM_CONTEXTMENU {
            MessageAction::ShowTrayMenu
        } else if event == WM_LBUTTONUP || event == WM_LBUTTONDBLCLK {
            MessageAction::Recenter
        } else {
            MessageAction::Ignore
        }
    } else if msg == WM_COMMAND {
        let id = wparam & 0xFFFF;
        if id == ID_TRAY_RECENTER {
            MessageAction::Recenter
        } else if id == ID_TRAY_TOGGLE_WINDOW {
            MessageAction::ToggleMoveWindow
        } else if id == ID_TRAY_SETTINGS {
            MessageAction::OpenSettings
        } else if id == ID_TRAY_TOGGLE_STARTUP {
            MessageAction::ToggleStartup
        } else if id == ID_TRAY_EXIT {
            MessageAction::CloseWindow
        } else {
            MessageAction::Ignore
        }
    } else if msg == WM_APP_RELOAD_CONFIG {
        MessageAction::ReloadConfig { update_tray: !headless }
    } else if msg == WM_DESTROY {
        MessageAction::Shutdown { remove_tray: !headless }
    } else {
        MessageAction::Default
    }
}

/// The recenter hotkey recentres whatever the tray mode and the other
/// parameter: a headless program answers its hotkey as well.
pub proof fn lemma_hotkey_recenters(lparam: isize, headless: bool)
    ensures
        message_action(WM_HOTKEY, RECENTER_HOTKEY_ID as usize, lparam, headless)
            == MessageAction::Recenter,
{
}

/// Running headless changes nothing but the tray flags of the reload and
/// destroy answers: every other message is answered alike with and without a
/// tray icon, and those two carry the tray flag as the negation of `headless`.
pub proof fn lemma_headless_only_changes_tray_flags(msg: u32, wparam: usize, lparam: isize)
    ensures
        msg != WM_APP_RELOAD_CONFIG && msg != WM_DESTROY ==> message_action(
            msg,
            wparam,
            lparam,
            true,
        ) == message_action(msg, wparam, lparam, false),
        msg == WM_APP_RELOAD_CONFIG ==> message_action(msg, wparam, lparam, true)
            == (MessageAction::ReloadConfig { update_tray: false }) && message_action(
            msg,
            wparam,
            lparam,
            false,
        ) == (MessageAction::ReloadConfig { update_tray: true }),
        msg == WM_DESTROY ==> message_action(msg, wparam, lparam, true) == (MessageAction::Shutdown {
            remove_tray: false,
        }) && message_action(msg, wparam, lparam, false) == (MessageAction::Shutdown {
            remove_tray: true,
        }),
{
}

/// Left clicks on the tray icon recentre and right clicks open its menu, in
/// either tray mode.
pub proof fn lemma_tray_clicks(headless: bool, wparam: usize)
    ensures
        message_action(WM_APP_TRAY_MSG, wparam, WM_LBUTTONUP as isize, headless)
            == MessageAction::Recenter,
        message_action(WM_APP_TRAY_MSG, wparam, WM_LBUTTONDBLCLK as isize, headless)
            == MessageAction::Recenter,
        message_action(WM_APP_TRAY_MSG, wparam, WM_RBUTTONUP as isize, headless)
            == MessageAction::ShowTrayMenu,
        message_action(WM_APP_TRAY_MSG, wparam, WM_CONTEXTMENU as isize, headless)
            == MessageAction::ShowTrayMenu,
{
}

/// Every command of the tray menu is answered by the action it names.
pub proof fn lemma_tray_commands_dispatch(headless: bool)
    ensures
        message_action(WM_COMMAND, ID_TRAY_RECENTER, 0, headless) == MessageAction::Recenter,
        message_action(WM_COMMAND, ID_TRAY_TOGGLE_WINDOW, 0, headless)
            == MessageAction::ToggleMoveWindow,
        message_action(WM_COMMAND, ID_TRAY_SETTINGS, 0, headless) == MessageAction::OpenSettings,
        message_action(WM_COMMAND, ID_TRAY_TOGGLE_STARTUP, 0, headless)
            == MessageAction::ToggleStartup,
        message_action(WM_COMMAND, ID_TRAY_EXIT, 0, headless) == MessageAction::CloseWindow,
{
    assert(101usize & 0xFFFF == 101) by (bit_vector);
    assert(102usize & 0xFFFF == 102) by (bit_vector);
    assert(103usize & 0xFFFF == 103) by (bit_vector);
    assert(104usize & 0xFFFF == 104) by (bit_vector);
    assert(105usize & 0xFFFF == 105) by (bit_vector);
}

/// What one recenter does: where the cursor goes, and the display the
/// foreground window is moved to, if it is moved.
#[derive(Debug, Clone, Copy, PartialEq, Eq, Structural)]
pub struct RecenterPlan {
    pub cursor_x: i32,
    pub cursor_y: i32,
    pub window_target: Option<Rect>,
}

/// The recenter for `cfg` on the primary display `primary`: the cursor goes
/// to the display's centre, and the foreground window to the display when
/// the configuration says so.
pub fn execute_recenter(cfg: &AppConfig, primary: &Rect) -> (plan: RecenterPlan)
    requires
        primary.extent_fits(),
    ensures
        plan.cursor_x == primary.center().0,
        plan.cursor_y == primary.center().1,
        plan.window_target == if cfg.move_window {
            Some(*primary)
        } else {
            None::<Rect>
        },
{
    let (x, y) = get_rect_center(primary);
    let window_target = if cfg.move_window {
        Some(*primary)
    } else {
        None
    };
    RecenterPlan { cursor_x: x, cursor_y: y, window_target }
}

} // verus!
