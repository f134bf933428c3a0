//! Tray icon interaction: which notifications open the menu, and what each
//! menu item does.

use vstd::prelude::*;
use crate::i18n::{all_langs, Lang};

verus! {

/// Menu item: exit.
pub const ID_MENU_EXIT: usize = 1001;
/// Menu item: start at login.
pub const ID_MENU_AUTOSTART: usize = 1002;
/// Menu item: options panel.
pub const ID_MENU_OPTIONS: usize = 1003;
/// First item of the language submenu; one item per language follows, in
/// menu order.
pub const ID_MENU_LANG_FIRST: usize = 1004;

/// Tray notification: right button released.
pub const WM_RBUTTONUP: usize = 0x0205;
/// Tray notification: context menu requested (keyboard or pen).
pub const WM_CONTEXTMENU: usize = 0x007B;
/// Tray notification: left button released.
pub const WM_LBUTTONUP: usize = 0x0202;

/// What a tray menu choice asks for.
#[derive(Debug, Clone, Copy, PartialEq, Eq, Structural)]
pub enum TrayCommand {
    /// Toggle start at login.
    ToggleAutostart,
    /// Open the options panel.
    OpenOptions,
    /// Switch the interface language.
    SetLanguage(Lang),
    /// Quit.
    Exit,
    /// The menu was dismissed or the item is unknown.
    Dismissed,
}

/// Command of the menu item `id`.
pub open spec fn tray_command_spec(id: usize) -> TrayCommand {
    if id == ID_MENU_AUTOSTART {
        TrayCommand::ToggleAutostart
    } else if id == ID_MENU_OPTIONS {
        TrayCommand::OpenOptions
    } else if id == ID_MENU_EXIT {
        TrayCommand::Exit
    } else if ID_MENU_LANG_FIRST <= id < ID_MENU_LANG_FIRST + all_langs().len() {
        TrayCommand::SetLanguage(all_langs()[id - ID_MENU_LANG_FIRST])
    } else {
        TrayCommand::Dismissed
    }
}

/// The notification code carried by a tray callback (the low word of its
/// `lParam`).
pub open spec fn notification_code(lparam: isize) -> usize {
    (lparam as usize) % 0x10000
}

/// Menu item identifier of the language at `index` in menu order.
pub fn lang_menu_id(index: usize) -> (id: usize)
    requires
        index < all_langs().len(),
    ensures
        id == ID_MENU_LANG_FIRST + index,
        tray_command_spec(id) == TrayCommand::SetLanguage(all_langs()[index as int]),
{
    ID_MENU_LANG_FIRST + index
}

/// What the menu item `id` (as returned by the menu; 0 when dismissed) asks for.
pub fn tray_command(id: usize) -> (r: TrayCommand)
    ensures
        r == tray_command_spec(id),
{
    if id == ID_MENU_AUTOSTART {
        TrayCommand::ToggleAutostart
    } else if id == ID_MENU_OPTIONS {
        TrayCommand::OpenOptions
    } else if id == ID_MENU_EXIT {
        TrayCommand::Exit
    } else if ID_MENU_LANG_FIRST <= id && id < ID_MENU_LANG_FIRST + 8 {
        let all = Lang::all();
        TrayCommand::SetLanguage(all[id - ID_MENU_LANG_FIRST])
    } else {
        TrayCommand::Dismissed
    }
}

/// Whether a tray callback opens the menu: a right or left click release, or
/// a context-menu request.
pub fn opens_tray_menu(lparam: isize) -> (r: bool)
    ensures
        r == (notification_code(lparam) == WM_RBUTTONUP || notification_code(lparam)
            == WM_CONTEXTMENU || notification_code(lparam) == WM_LBUTTONUP),
{
    let raw = lparam as usize;
    let evt = raw & 0xffff;
    assert(raw & 0xffff == raw % 0x10000) by (bit_vector);
    evt == WM_RBUTTONUP || evt == WM_CONTEXTMENU || evt == WM_LBUTTONUP
}

/// Each tray item does what it is labelled for: the start-at-login item
/// toggles start at login, the options item opens the panel, the exit item
/// quits, a dismissed menu (0) does nothing, and every language can be chosen
/// through an item of its own, no two items choosing the same language.
pub proof fn lemma_menu_items(l: Lang, i: int, j: int)
    ensures
        tray_command_spec(ID_MENU_AUTOSTART) == TrayCommand::ToggleAutostart,
        tray_command_spec(ID_MENU_OPTIONS) == TrayCommand::OpenOptions,
        tray_command_spec(ID_MENU_EXIT) == TrayCommand::Exit,
        tray_command_spec(0) == TrayCommand::Dismissed,
        exists|k: int|
            0 <= k < all_langs().len() && #[trigger] tray_command_spec((ID_MENU_LANG_FIRST + k) as usize)
                == TrayCommand::SetLanguage(l),
        0 <= i < all_langs().len() && 0 <= j < all_langs().len() && i != j ==> tray_command_spec(
            (ID_MENU_LANG_FIRST + i) as usize,
        ) != tray_command_spec((ID_MENU_LANG_FIRST + j) as usize),
{
    crate::i18n::lemma_all_langs_complete(l);
    let k = choose|k: int| 0 <= k < all_langs().len() && all_langs()[k] == l;
    assert(tray_command_spec((ID_MENU_LANG_FIRST + k) as usize) == TrayCommand::SetLanguage(l));
}

/// Every language has its own menu item, and it selects that language.
pub proof fn lemma_language_items(index: int)
    requires
        0 <= index < all_langs().len(),
    ensures
        tray_command_spec((ID_MENU_LANG_FIRST + index) as usize) == TrayCommand::SetLanguage(
            all_langs()[index],
        ),
        tray_command_spec((ID_MENU_LANG_FIRST + index) as usize) != TrayCommand::Exit,
{
}

} // verus!
