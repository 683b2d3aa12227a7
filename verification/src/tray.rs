//! The notification-area icon: its tooltip, its tooltip buffer and the items
//! of its context menu.
use vstd::prelude::*;
use crate::config::AppConfig;

verus! {

/// The first message number free for applications (`WM_APP`).
pub const WM_APP: u32 = 0x8000;

/// The message the tray icon sends on mouse events.
pub const WM_APP_TRAY_MSG: u32 = WM_APP + 1;

/// The message that asks the main window to reload the settings.
pub const WM_APP_RELOAD_CONFIG: u32 = WM_APP + 2;

/// Menu command: recenter now.
pub const ID_TRAY_RECENTER: usize = 101;

/// Menu command: switch moving the active window on or off.
pub const ID_TRAY_TOGGLE_WINDOW: usize = 102;

/// Menu command: open the settings dialog.
pub const ID_TRAY_SETTINGS: usize = 103;

/// Menu command: switch starting with Windows on or off.
pub const ID_TRAY_TOGGLE_STARTUP: usize = 104;

/// Menu command: quit.
pub const ID_TRAY_EXIT: usize = 105;

/// The number of UTF-16 units in the tooltip buffer of a tray icon
/// (`NOTIFYICONDATAW::szTip`).
pub const TIP_CAPACITY: usize = 128;

/// The tooltip of the tray icon, e.g. `Recenter Mouse (Ctrl + Alt + C)`.
pub fn tray_tooltip(cfg: &AppConfig) -> (tip: String)
    ensures
        tip@ == "Recenter Mouse ("@ + cfg.display_text() + ")"@,
{
    let mut tip = String::from_str("Recenter Mouse (");
    let shown = cfg.hotkey_display();
    tip.append(shown.as_str());
    tip.append(")");
    tip
}

/// The tooltip buffer filled from the UTF-16 text `wide`: as many of its
/// units as leave the last unit free, then zeros; so the buffer always ends
/// in a zero unit.
pub fn tip_buffer(wide: &Vec<u16>) -> (buf: Vec<u16>)
    ensures
        buf@.len() == TIP_CAPACITY,
        buf@[TIP_CAPACITY - 1] == 0,
        forall|i: int|
            0 <= i < TIP_CAPACITY ==> #[trigger] buf@[i] == if i < wide@.len() && i < TIP_CAPACITY
                - 1 {
                wide@[i]
            } else {
                0u16
            },
{
    let copy_len = if wide.len() < TIP_CAPACITY - 1 {
        wide.len()
    } else {
        TIP_CAPACITY - 1
    };
    let mut buf: Vec<u16> = Vec::new();
    let mut i: usize = 0;
    while i < TIP_CAPACITY
        invariant
            i <= TIP_CAPACITY,
            buf@.len() == i,
            copy_len <= wide@.len(),
            copy_len == if wide@.len() < TIP_CAPACITY - 1 {
                wide@.len() as int
            } else {
                TIP_CAPACITY - 1
            },
            forall|k: int|
                0 <= k < i ==> #[trigger] buf@[k] == if k < wide@.len() && k < TIP_CAPACITY - 1 {
                    wide@[k]
                } else {
                    0u16
                },
        decreases TIP_CAPACITY - i,
    {
        if i < copy_len {
            buf.push(wide[i]);
        } else {
            buf.push(0);
        }
        i = i + 1;
    }
    assert(buf@[TIP_CAPACITY - 1] == 0);
    buf
}

/// An entry of the tray icon's context menu.
#[derive(Debug, Clone)]
pub enum MenuEntry {
    /// A separating line.
    Separator,
    /// A command, with its text, its tick mark when it has one, and whether
    /// it is the bold default command.
    Item { id: usize, label: String, checked: Option<bool>, is_default: bool },
}

/// Whether `e` is the command `id` with the text `label`, the tick `checked`
/// and the default flag `is_default`.
pub open spec fn is_menu_item(
    e: MenuEntry,
    id: usize,
    label: Seq<char>,
    checked: Option<bool>,
    is_default: bool,
) -> bool {
    &&& e is Item
    &&& e->id == id
    &&& e->label@ == label
    &&& e->checked == checked
    &&& e->is_default == is_default
}

fn menu_item(id: usize, label: String, checked: Option<bool>, is_default: bool) -> (e: MenuEntry)
    ensures
        is_menu_item(e, id, label@, checked, is_default),
{
    MenuEntry::Item { id, label, checked, is_default }
}

/// The context menu of the tray icon for `cfg`: "Recenter Now" with the
/// hotkey (the default command), a separator, "Move Active Window" ticked by
/// the window switch, "Settings & Key Bindings...", "Start with Windows"
/// ticked by the startup switch, a separator, and "Exit".
pub fn tray_menu(cfg: &AppConfig) -> (menu: Vec<MenuEntry>)
    ensures
        menu@.len() == 7,
        is_menu_item(
            menu@[0],
            ID_TRAY_RECENTER,
            "Recenter Now ("@ + cfg.display_text() + ")"@,
            None,
            true,
        ),
        menu@[1] is Separator,
        is_menu_item(
            menu@[2],
            ID_TRAY_TOGGLE_WINDOW,
            "Move Active Window"@,
            Some(cfg.move_window),
            false,
        ),
        is_menu_item(menu@[3], ID_TRAY_SETTINGS, "Settings & Key Bindings..."@, None, false),
        is_menu_item(
            menu@[4],
            ID_TRAY_TOGGLE_STARTUP,
            "Start with Windows"@,
            Some(cfg.start_with_windows),
            false,
        ),
        menu@[5] is Separator,
        is_menu_item(menu@[6], ID_TRAY_EXIT, "Exit"@, None, false),
{
    let mut recenter = String::from_str("Recenter Now (");
    let shown = cfg.hotkey_display();
    recenter.append(shown.as_str());
    recenter.append(")");
    let mut menu: Vec<MenuEntry> = Vec::new();
    menu.push(menu_item(ID_TRAY_RECENTER, recenter, None, true));
    menu.push(MenuEntry::Separator);
    menu.push(
        menu_item(
            ID_TRAY_TOGGLE_WINDOW,
            String::from_str("Move Active Window"),
            Some(cfg.move_window),
            false,
        ),
    );
    menu.push(
        menu_item(ID_TRAY_SETTINGS, String::from_str("Settings & Key Bindings..."), None, false),
    );
    menu.push(
        menu_item(
            ID_TRAY_TOGGLE_STARTUP,
            String::from_str("Start with Windows"),
            Some(cfg.start_with_windows),
            false,
        ),
    );
    menu.push(MenuEntry::Separator);
    menu.push(menu_item(ID_TRAY_EXIT, String::from_str("Exit"), None, false));
    menu
}

} // verus!
