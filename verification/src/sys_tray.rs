//! The plain tray menu: quit and hide, with no state behind it.

use vstd::prelude::*;
use crate::menu::MenuId;
use crate::tray::{EntryModel, MenuEntry, TrayMenu};

verus! {

/// The plain menu: quit, a separator, and hide.
pub open spec fn plain_menu() -> Seq<EntryModel> {
    seq![
        EntryModel::Item { id: MenuId::Quit, label: "Quit"@ },
        EntryModel::Separator,
        EntryModel::Item { id: MenuId::Hide, label: "Hide"@ },
    ]
}

/// Builds the plain tray menu.
pub fn build_tray() -> (menu: TrayMenu)
    ensures
        menu@ == plain_menu(),
{
    let mut entries: Vec<MenuEntry> = Vec::new();
    entries.push(MenuEntry::Item { id: MenuId::Quit, label: "Quit" });
    entries.push(MenuEntry::Separator);
    entries.push(MenuEntry::Item { id: MenuId::Hide, label: "Hide" });
    let menu = TrayMenu { entries };
    assert(menu@ =~= plain_menu());
    menu
}

} // verus!
