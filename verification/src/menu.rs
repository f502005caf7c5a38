//! The tray menu: its item ids, the labels that the state gives them, and
//! the menu as a list of entries.

use vstd::prelude::*;
use crate::state::AppState;
use crate::text::str_eq;

verus! {

/// The stable id of a tray menu item. The menu of the state holds the three
/// toggles and quit; `Hide` is an item of the plain menu only.
#[derive(Clone, Copy, Debug, PartialEq, Eq, Structural)]
pub enum MenuId {
    ToggleWindow,
    TogglePlayback,
    ToggleMode,
    Hide,
    Quit,
}

impl MenuId {
    /// The id under which the item is entered in a menu.
    pub open spec fn name(self) -> Seq<char> {
        match self {
            MenuId::ToggleWindow => "toggle_window"@,
            MenuId::TogglePlayback => "toggle_playback"@,
            MenuId::ToggleMode => "toggle_mode"@,
            MenuId::Hide => "hide"@,
            MenuId::Quit => "quit"@,
        }
    }

    /// The item that the menu handler answers for the id that a menu event
    /// reports: one of the three toggles or quit. Every other id, that of
    /// the plain menu's hide item too, names none.
    pub open spec fn lookup(id: Seq<char>) -> Option<MenuId> {
        if id == "toggle_window"@ {
            Some(MenuId::ToggleWindow)
        } else if id == "toggle_playback"@ {
            Some(MenuId::TogglePlayback)
        } else if id == "toggle_mode"@ {
            Some(MenuId::ToggleMode)
        } else if id == "quit"@ {
            Some(MenuId::Quit)
        } else {
            None
        }
    }

    /// The label that the item carries while the shell is in `state`.
    pub open spec fn label_in(self, state: AppState) -> Seq<char> {
        match self {
            MenuId::ToggleWindow => if state.is_window_visible {
                "Hide Window"@
            } else {
                "Show Window"@
            },
            MenuId::TogglePlayback => if state.is_playing {
                "Pause"@
            } else {
                "Play"@
            },
            MenuId::ToggleMode => if state.is_audio_mode {
                "Switch to Video Mode"@
            } else {
                "Switch to Audio Mode"@
            },
            MenuId::Hide => "Hide"@,
            MenuId::Quit => "Quit"@,
        }
    }

    /// The id as a string.
    pub fn as_str(self) -> (name: &'static str)
        ensures
            name@ == self.name(),
    {
        match self {
            MenuId::ToggleWindow => "toggle_window",
            MenuId::TogglePlayback => "toggle_playback",
            MenuId::ToggleMode => "toggle_mode",
            MenuId::Hide => "hide",
            MenuId::Quit => "quit",
        }
    }

    /// Reads the id that a menu event reports. It gives one of the three
    /// toggles or quit, and `None` for every other id.
    pub fn parse(id: &str) -> (found: Option<MenuId>)
        ensures
            found == MenuId::lookup(id@),
    {
        if str_eq(id, "toggle_window") {
            Some(MenuId::ToggleWindow)
        } else if str_eq(id, "toggle_playback") {
            Some(MenuId::TogglePlayback)
        } else if str_eq(id, "toggle_mode") {
            Some(MenuId::ToggleMode)
        } else if str_eq(id, "quit") {
            Some(MenuId::Quit)
        } else {
            None
        }
    }

    /// The label of the item in `state`.
    pub fn label(self, state: &AppState) -> (label: &'static str)
        ensures
            label@ == self.label_in(*state),
    {
        match self {
            MenuId::ToggleWindow => if state.is_window_visible {
                "Hide Window"
            } else {
                "Show Window"
            },
            MenuId::TogglePlayback => if state.is_playing {
                "Pause"
            } else {
                "Play"
            },
            MenuId::ToggleMode => if state.is_audio_mode {
                "Switch to Video Mode"
            } else {
                "Switch to Audio Mode"
            },
            MenuId::Hide => "Hide",
            MenuId::Quit => "Quit",
        }
    }
}

/// No two items share an id.
pub proof fn lemma_names_differ(a: MenuId, b: MenuId)
    ensures
        a.name() == b.name() <==> a == b,
{
    reveal_strlit("toggle_window");
    reveal_strlit("toggle_playback");
    reveal_strlit("toggle_mode");
    reveal_strlit("hide");
    reveal_strlit("quit");
    assert("toggle_window"@.len() == 13);
    assert("toggle_playback"@.len() == 15);
    assert("toggle_mode"@.len() == 11);
    assert("hide"@.len() == 4 && "quit"@.len() == 4);
    assert("hide"@[0] != "quit"@[0]);
}

/// Each of the three toggles and quit is found again by its own id; the id
/// of the hide item finds nothing.
pub proof fn lemma_lookup_finds_name(id: MenuId)
    ensures
        MenuId::lookup(id.name()) == if id == MenuId::Hide {
            None
        } else {
            Some(id)
        },
{
    lemma_names_differ(id, MenuId::ToggleWindow);
    lemma_names_differ(id, MenuId::TogglePlayback);
    lemma_names_differ(id, MenuId::ToggleMode);
    lemma_names_differ(id, MenuId::Quit);
}

/// An id finds an item exactly when it is that item's name and the item is
/// not the hide item.
pub proof fn lemma_lookup_is_name(text: Seq<char>, id: MenuId)
    ensures
        MenuId::lookup(text) == Some(id) <==> text == id.name() && id != MenuId::Hide,
{
    lemma_lookup_finds_name(id);
}

/// The handler ignores every id but four: whatever is not the name of one of
/// the three toggles or of quit finds nothing.
pub proof fn lemma_lookup_knows_four(text: Seq<char>)
    ensures
        MenuId::lookup(text) is None <==> text != MenuId::ToggleWindow.name() && text
            != MenuId::TogglePlayback.name() && text != MenuId::ToggleMode.name() && text
            != MenuId::Quit.name(),
{
}

/// The labels of the three toggle items tell the three flags: two states
/// give an item the same label exactly when they agree on its flag.
pub proof fn lemma_labels_tell_flags(a: AppState, b: AppState)
    ensures
        MenuId::ToggleWindow.label_in(a) == MenuId::ToggleWindow.label_in(b)
            <==> a.is_window_visible == b.is_window_visible,
        MenuId::TogglePlayback.label_in(a) == MenuId::TogglePlayback.label_in(b)
            <==> a.is_playing == b.is_playing,
        MenuId::ToggleMode.label_in(a) == MenuId::ToggleMode.label_in(b)
            <==> a.is_audio_mode == b.is_audio_mode,
{
    reveal_strlit("Hide Window");
    reveal_strlit("Show Window");
    reveal_strlit("Pause");
    reveal_strlit("Play");
    reveal_strlit("Switch to Video Mode");
    reveal_strlit("Switch to Audio Mode");
    assert("Pause"@.len() == 5 && "Play"@.len() == 4);
    assert("Hide Window"@[0] != "Show Window"@[0]);
    assert("Switch to Video Mode"@[10] != "Switch to Audio Mode"@[10]);
}

/// A label is a function of the item's own flag alone.
pub proof fn lemma_label_reads_one_flag(a: AppState, b: AppState)
    ensures
        a.is_window_visible == b.is_window_visible ==> MenuId::ToggleWindow.label_in(a)
            == MenuId::ToggleWindow.label_in(b),
        a.is_playing == b.is_playing ==> MenuId::TogglePlayback.label_in(a)
            == MenuId::TogglePlayback.label_in(b),
        a.is_audio_mode == b.is_audio_mode ==> MenuId::ToggleMode.label_in(a)
            == MenuId::ToggleMode.label_in(b),
        MenuId::Hide.label_in(a) == MenuId::Hide.label_in(b),
        MenuId::Quit.label_in(a) == MenuId::Quit.label_in(b),
{
}

} // verus!
