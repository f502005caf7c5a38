//! The tray menu as a list of entries, built from the state.

use vstd::prelude::*;
use crate::menu::MenuId;
use crate::state::AppState;

verus! {

/// What a menu entry is: an item with its id and the text it shows, or a
/// separator line.
pub enum EntryModel {
    Item { id: MenuId, label: Seq<char> },
    Separator,
}

/// An entry of the tray menu.
#[derive(Clone, Copy, Debug, PartialEq, Eq)]
pub enum MenuEntry {
    Item { id: MenuId, label: &'static str },
    Separator,
}

impl View for MenuEntry {
    type V = EntryModel;

    open spec fn view(&self) -> EntryModel {
        match *self {
            MenuEntry::Item { id, label } => EntryModel::Item { id, label: label@ },
            MenuEntry::Separator => EntryModel::Separator,
        }
    }
}

/// The tray menu: its entries from top to bottom.
#[derive(Clone, Debug, PartialEq, Eq)]
pub struct TrayMenu {
    pub entries: Vec<MenuEntry>,
}

impl View for TrayMenu {
    type V = Seq<EntryModel>;

    open spec fn view(&self) -> Seq<EntryModel> {
        Seq::new(self.entries@.len(), |i: int| self.entries@[i]@)
    }
}

/// The item `id` with the label that `state` gives it.
pub open spec fn item_in(id: MenuId, state: AppState) -> EntryModel {
    EntryModel::Item { id, label: id.label_in(state) }
}

/// The menu that belongs to `state`: the window toggle, a separator, the
/// playback and mode toggles, a separator, and quit.
pub open spec fn menu_of(state: AppState) -> Seq<EntryModel> {
    seq![
        item_in(MenuId::ToggleWindow, state),
        EntryModel::Separator,
        item_in(MenuId::TogglePlayback, state),
        item_in(MenuId::ToggleMode, state),
        EntryModel::Separator,
        item_in(MenuId::Quit, state),
    ]
}

/// The item `id` as it stands in the menu of `state`.
pub fn menu_item(id: MenuId, state: &AppState) -> (entry: MenuEntry)
    ensures
        entry@ == item_in(id, *state),
{
    MenuEntry::Item { id, label: id.label(state) }
}

/// Builds the tray menu for the three flags given.
pub fn build_tray_with_state(is_audio_mode: bool, is_playing: bool, is_visible: bool) -> (menu:
    TrayMenu)
    ensures
        menu@ == menu_of(
            (AppState { is_audio_mode, is_playing, is_window_visible: is_visible }),
        ),
{
    let state = AppState { is_audio_mode, is_playing, is_window_visible: is_visible };
    let mut entries: Vec<MenuEntry> = Vec::new();
    entries.push(menu_item(MenuId::ToggleWindow, &state));
    entries.push(MenuEntry::Separator);
    entries.push(menu_item(MenuId::TogglePlayback, &state));
    entries.push(menu_item(MenuId::ToggleMode, &state));
    entries.push(MenuEntry::Separator);
    entries.push(menu_item(MenuId::Quit, &state));
    let menu = TrayMenu { entries };
    assert(menu@ =~= menu_of(state));
    menu
}

/// Rebuilds the tray menu so that it shows the current state.
pub fn update_tray_menu(state: &AppState) -> (menu: TrayMenu)
    ensures
        menu@ == menu_of(*state),
{
    build_tray_with_state(state.is_audio_mode, state.is_playing, state.is_window_visible)
}

/// The tray menu at startup, before any command has run.
pub fn build_tray() -> (menu: TrayMenu)
    ensures
        menu@ == menu_of(AppState::initial()),
{
    build_tray_with_state(false, true, false)
}

/// Two states have the same menu exactly when they are the same state.
pub proof fn lemma_menu_tells_state(a: AppState, b: AppState)
    ensures
        menu_of(a) == menu_of(b) <==> a == b,
{
    crate::menu::lemma_labels_tell_flags(a, b);
    if menu_of(a) == menu_of(b) {
        assert(menu_of(a)[0] == menu_of(b)[0]);
        assert(menu_of(a)[2] == menu_of(b)[2]);
        assert(menu_of(a)[3] == menu_of(b)[3]);
    }
}

} // verus!
