use tray_controller::menu::MenuId;
use tray_controller::state::AppState;
use tray_controller::sys_tray;
use tray_controller::text::str_eq;
use tray_controller::tray::{
    build_tray, build_tray_with_state, menu_item, update_tray_menu, MenuEntry, TrayMenu,
};

const ALL_IDS: [MenuId; 5] = [
    MenuId::ToggleWindow,
    MenuId::TogglePlayback,
    MenuId::ToggleMode,
    MenuId::Hide,
    MenuId::Quit,
];

fn item(id: MenuId, label: &'static str) -> MenuEntry {
    MenuEntry::Item { id, label }
}

#[test]
fn playback_label_follows_is_playing() {
    let mut s = AppState::default();
    s.is_playing = true;
    assert_eq!(MenuId::TogglePlayback.label(&s), "Pause");
    s.is_playing = false;
    assert_eq!(MenuId::TogglePlayback.label(&s), "Play");
}

#[test]
fn window_label_follows_is_window_visible() {
    let mut s = AppState::default();
    s.is_window_visible = true;
    assert_eq!(MenuId::ToggleWindow.label(&s), "Hide Window");
    s.is_window_visible = false;
    assert_eq!(MenuId::ToggleWindow.label(&s), "Show Window");
}

#[test]
fn mode_label_follows_is_audio_mode() {
    let mut s = AppState::default();
    s.is_audio_mode = true;
    assert_eq!(MenuId::ToggleMode.label(&s), "Switch to Video Mode");
    s.is_audio_mode = false;
    assert_eq!(MenuId::ToggleMode.label(&s), "Switch to Audio Mode");
}

#[test]
fn quit_and_hide_labels_are_fixed() {
    for a in [false, true] {
        for p in [false, true] {
            for w in [false, true] {
                let s = AppState { is_audio_mode: a, is_playing: p, is_window_visible: w };
                assert_eq!(MenuId::Quit.label(&s), "Quit");
                assert_eq!(MenuId::Hide.label(&s), "Hide");
            }
        }
    }
}

#[test]
fn a_label_reads_only_its_own_flag() {
    for a in [false, true] {
        for w in [false, true] {
            let playing = AppState { is_audio_mode: a, is_playing: true, is_window_visible: w };
            let paused = AppState { is_audio_mode: a, is_playing: false, is_window_visible: w };
            assert_eq!(MenuId::TogglePlayback.label(&playing), "Pause");
            assert_eq!(MenuId::TogglePlayback.label(&paused), "Play");
            assert_eq!(MenuId::ToggleMode.label(&playing), MenuId::ToggleMode.label(&paused));
            assert_eq!(MenuId::ToggleWindow.label(&playing), MenuId::ToggleWindow.label(&paused));
        }
    }
}

#[test]
fn ids_have_their_names() {
    assert_eq!(MenuId::ToggleWindow.as_str(), "toggle_window");
    assert_eq!(MenuId::TogglePlayback.as_str(), "toggle_playback");
    assert_eq!(MenuId::ToggleMode.as_str(), "toggle_mode");
    assert_eq!(MenuId::Hide.as_str(), "hide");
    assert_eq!(MenuId::Quit.as_str(), "quit");
}

#[test]
fn parse_finds_the_toggles_and_quit_by_name() {
    for id in ALL_IDS {
        if id == MenuId::Hide {
            assert_eq!(MenuId::parse(id.as_str()), None);
        } else {
            assert_eq!(MenuId::parse(id.as_str()), Some(id));
        }
    }
    assert_eq!(MenuId::parse("toggle_window"), Some(MenuId::ToggleWindow));
    assert_eq!(MenuId::parse("toggle_playback"), Some(MenuId::TogglePlayback));
    assert_eq!(MenuId::parse("toggle_mode"), Some(MenuId::ToggleMode));
    assert_eq!(MenuId::parse("quit"), Some(MenuId::Quit));
}

#[test]
fn parse_does_not_find_hide() {
    assert_eq!(MenuId::parse("hide"), None);
    assert_eq!(MenuId::parse(MenuId::Hide.as_str()), None);
}

#[test]
fn ids_are_distinct() {
    for a in ALL_IDS {
        for b in ALL_IDS {
            assert_eq!(a.as_str() == b.as_str(), a == b);
        }
    }
}

#[test]
fn parse_rejects_other_text() {
    for text in [
        "", "hide", "Hide", "Quit", "quit ", " quit", "toggle", "toggle_windows", "show", "hid",
        "qui", "hidf",
    ] {
        assert_eq!(MenuId::parse(text), None);
    }
}

#[test]
fn str_eq_compares_characters() {
    assert!(str_eq("", ""));
    assert!(str_eq("quit", "quit"));
    assert!(!str_eq("quit", "quiz"));
    assert!(!str_eq("quit", "qui"));
    assert!(!str_eq("", "q"));
    assert!(str_eq("fen\u{ea}tre", "fen\u{ea}tre"));
    assert!(!str_eq("fen\u{ea}tre", "fenetre"));
    assert!(!str_eq("\u{e9}", "\u{e8}"));
}

#[test]
fn default_tray_menu() {
    let expected = TrayMenu {
        entries: vec![
            item(MenuId::ToggleWindow, "Show Window"),
            MenuEntry::Separator,
            item(MenuId::TogglePlayback, "Pause"),
            item(MenuId::ToggleMode, "Switch to Audio Mode"),
            MenuEntry::Separator,
            item(MenuId::Quit, "Quit"),
        ],
    };
    assert_eq!(build_tray(), expected);
    assert_eq!(build_tray_with_state(false, true, false), expected);
    assert_eq!(update_tray_menu(&AppState::default()), expected);
}

#[test]
fn tray_menu_with_every_flag_flipped() {
    let expected = TrayMenu {
        entries: vec![
            item(MenuId::ToggleWindow, "Hide Window"),
            MenuEntry::Separator,
            item(MenuId::TogglePlayback, "Play"),
            item(MenuId::ToggleMode, "Switch to Video Mode"),
            MenuEntry::Separator,
            item(MenuId::Quit, "Quit"),
        ],
    };
    assert_eq!(build_tray_with_state(true, false, true), expected);
}

#[test]
fn build_tray_with_state_takes_flags_in_order() {
    let menu = build_tray_with_state(true, true, false);
    assert_eq!(menu.entries[0], item(MenuId::ToggleWindow, "Show Window"));
    assert_eq!(menu.entries[2], item(MenuId::TogglePlayback, "Pause"));
    assert_eq!(menu.entries[3], item(MenuId::ToggleMode, "Switch to Video Mode"));
}

#[test]
fn update_tray_menu_shows_the_state() {
    for a in [false, true] {
        for p in [false, true] {
            for w in [false, true] {
                let s = AppState { is_audio_mode: a, is_playing: p, is_window_visible: w };
                let menu = update_tray_menu(&s);
                assert_eq!(menu, build_tray_with_state(a, p, w));
                assert_eq!(menu.entries.len(), 6);
                assert_eq!(menu.entries[0], menu_item(MenuId::ToggleWindow, &s));
                assert_eq!(menu.entries[2], menu_item(MenuId::TogglePlayback, &s));
                assert_eq!(menu.entries[3], menu_item(MenuId::ToggleMode, &s));
                assert_eq!(menu.entries[5], item(MenuId::Quit, "Quit"));
            }
        }
    }
}

#[test]
fn different_states_have_different_menus() {
    let a = AppState { is_audio_mode: false, is_playing: true, is_window_visible: false };
    let b = AppState { is_audio_mode: false, is_playing: true, is_window_visible: true };
    assert_ne!(update_tray_menu(&a), update_tray_menu(&b));
}

#[test]
fn plain_tray_menu() {
    let expected = TrayMenu {
        entries: vec![
            item(MenuId::Quit, "Quit"),
            MenuEntry::Separator,
            item(MenuId::Hide, "Hide"),
        ],
    };
    assert_eq!(sys_tray::build_tray(), expected);
}
