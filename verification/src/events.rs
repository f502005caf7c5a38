//! Menu and tray-icon events, and the steps that answer them.
//!
//! The caller looks the main window up, hands in what it found together
//! with the event, and carries out the steps it gets back, in order and
//! without regard to whether a step succeeds.

use vstd::prelude::*;
use crate::menu::MenuId;

verus! {

/// A notification sent to the content of the window. It has no payload.
#[derive(Clone, Copy, Debug, PartialEq, Eq, Structural)]
pub enum Notification {
    WindowHidden,
    WindowShown,
    TogglePlaybackFromTray,
    ToggleModeFromTray,
}

impl Notification {
    /// The name under which the notification is sent.
    pub open spec fn name(self) -> Seq<char> {
        match self {
            Notification::WindowHidden => "window-hidden"@,
            Notification::WindowShown => "window-shown"@,
            Notification::TogglePlaybackFromTray => "toggle-playback-from-tray"@,
            Notification::ToggleModeFromTray => "toggle-mode-from-tray"@,
        }
    }

    /// The name as a string.
    pub fn as_str(self) -> (name: &'static str)
        ensures
            name@ == self.name(),
    {
        match self {
            Notification::WindowHidden => "window-hidden",
            Notification::WindowShown => "window-shown",
            Notification::TogglePlaybackFromTray => "toggle-playback-from-tray",
            Notification::ToggleModeFromTray => "toggle-mode-from-tray",
        }
    }
}

/// One step for the caller to carry out.
#[derive(Clone, Copy, Debug, PartialEq, Eq, Structural)]
pub enum Action {
    /// Show the main window.
    Show,
    /// Give the main window the focus.
    Focus,
    /// Hide the main window.
    Hide,
    /// Send a notification to the content of the main window.
    Emit(Notification),
    /// End the process with this exit code.
    Exit(i32),
}

/// What the caller found when it looked the main window up.
#[derive(Clone, Copy, Debug, PartialEq, Eq)]
pub enum WindowProbe {
    /// There is no main window.
    Missing,
    /// There is one; `visible` is `None` where it would not say whether it
    /// is visible.
    Present { visible: Option<bool> },
}

impl WindowProbe {
    /// Whether the window counts as shown: it is there and says so. A window
    /// that does not answer counts as hidden.
    pub open spec fn shown(self) -> bool {
        self == (WindowProbe::Present { visible: Some(true) })
    }

    /// Whether the window counts as shown.
    pub fn is_shown(self) -> (shown: bool)
        ensures
            shown == self.shown(),
    {
        match self {
            WindowProbe::Present { visible: Some(true) } => true,
            _ => false,
        }
    }
}

/// A mouse button.
#[derive(Clone, Copy, Debug, PartialEq, Eq, Structural)]
pub enum MouseButton {
    Left,
    Right,
    Middle,
}

/// Whether a button went down or came up.
#[derive(Clone, Copy, Debug, PartialEq, Eq, Structural)]
pub enum MouseButtonState {
    Up,
    Down,
}

/// An event on the tray icon, without its position.
#[derive(Clone, Copy, Debug, PartialEq, Eq, Structural)]
pub enum TrayIconEvent {
    Click { button: MouseButton, button_state: MouseButtonState },
    DoubleClick { button: MouseButton },
    Enter,
    Move,
    Leave,
}

impl TrayIconEvent {
    /// Whether the event is the left button coming up on the icon.
    pub open spec fn is_left_release(self) -> bool {
        self == (TrayIconEvent::Click {
            button: MouseButton::Left,
            button_state: MouseButtonState::Up,
        })
    }
}

/// The steps that flip the window: a shown window is hidden and told so, any
/// other window is shown, focused and told so. Without a window there is
/// nothing to do.
pub open spec fn toggle_steps(window: WindowProbe) -> Seq<Action> {
    if window is Missing {
        seq![]
    } else if window.shown() {
        seq![Action::Hide, Action::Emit(Notification::WindowHidden)]
    } else {
        seq![Action::Show, Action::Focus, Action::Emit(Notification::WindowShown)]
    }
}

/// The steps that send one notification, if there is a window to send it to.
pub open spec fn emit_steps(window: WindowProbe, notification: Notification) -> Seq<Action> {
    if window is Missing {
        seq![]
    } else {
        seq![Action::Emit(notification)]
    }
}

/// The steps that hide the window, if there is one.
pub open spec fn hide_steps(window: WindowProbe) -> Seq<Action> {
    if window is Missing {
        seq![]
    } else {
        seq![Action::Hide]
    }
}

/// The steps that answer a click on a menu item. The hide item has no
/// handler, so a click on it has no steps, and neither has an id that names
/// no item.
pub open spec fn menu_steps(id: Option<MenuId>, window: WindowProbe) -> Seq<Action> {
    match id {
        Some(MenuId::ToggleWindow) => toggle_steps(window),
        Some(MenuId::TogglePlayback) => emit_steps(window, Notification::TogglePlaybackFromTray),
        Some(MenuId::ToggleMode) => emit_steps(window, Notification::ToggleModeFromTray),
        Some(MenuId::Hide) => seq![],
        Some(MenuId::Quit) => seq![Action::Exit(0)],
        None => seq![],
    }
}

/// The steps that answer an event on the tray icon: the left button coming
/// up flips the window, every other event has no steps.
pub open spec fn tray_icon_steps(event: TrayIconEvent, window: WindowProbe) -> Seq<Action> {
    if event.is_left_release() {
        toggle_steps(window)
    } else {
        seq![]
    }
}

/// Whether the window is shown once `step` has been carried out on a window
/// that was shown or not as `before` says.
pub open spec fn shown_after_step(step: Action, before: bool) -> bool {
    match step {
        Action::Show => true,
        Action::Hide => false,
        _ => before,
    }
}

/// Whether the window is shown once all of `steps` have been carried out in
/// order.
pub open spec fn shown_after(steps: Seq<Action>, before: bool) -> bool
    decreases steps.len(),
{
    if steps.len() == 0 {
        before
    } else {
        shown_after_step(steps.last(), shown_after(steps.drop_last(), before))
    }
}

/// Flips the window.
pub fn toggle_window(window: WindowProbe) -> (steps: Vec<Action>)
    ensures
        steps@ == toggle_steps(window),
{
    let mut steps: Vec<Action> = Vec::new();
    match window {
        WindowProbe::Missing => {},
        WindowProbe::Present { .. } => {
            if window.is_shown() {
                steps.push(Action::Hide);
                steps.push(Action::Emit(Notification::WindowHidden));
            } else {
                steps.push(Action::Show);
                steps.push(Action::Focus);
                steps.push(Action::Emit(Notification::WindowShown));
            }
        },
    }
    assert(steps@ =~= toggle_steps(window));
    steps
}

/// Sends `notification` to the window, if there is one.
pub fn emit_to_window(window: WindowProbe, notification: Notification) -> (steps: Vec<Action>)
    ensures
        steps@ == emit_steps(window, notification),
{
    let mut steps: Vec<Action> = Vec::new();
    match window {
        WindowProbe::Missing => {},
        WindowProbe::Present { .. } => {
            steps.push(Action::Emit(notification));
        },
    }
    assert(steps@ =~= emit_steps(window, notification));
    steps
}

/// Hides the window, if there is one.
pub fn hide_window(window: WindowProbe) -> (steps: Vec<Action>)
    ensures
        steps@ == hide_steps(window),
{
    let mut steps: Vec<Action> = Vec::new();
    match window {
        WindowProbe::Missing => {},
        WindowProbe::Present { .. } => {
            steps.push(Action::Hide);
        },
    }
    assert(steps@ =~= hide_steps(window));
    steps
}

/// Answers a click on the menu item `id`. A click on the hide item is
/// ignored.
pub fn on_menu_item(id: MenuId, window: WindowProbe) -> (steps: Vec<Action>)
    ensures
        steps@ == menu_steps(Some(id), window),
{
    match id {
        MenuId::ToggleWindow => toggle_window(window),
        MenuId::TogglePlayback => emit_to_window(window, Notification::TogglePlaybackFromTray),
        MenuId::ToggleMode => emit_to_window(window, Notification::ToggleModeFromTray),
        MenuId::Hide => Vec::new(),
        MenuId::Quit => {
            let mut steps: Vec<Action> = Vec::new();
            steps.push(Action::Exit(0));
            assert(steps@ =~= menu_steps(Some(id), window));
            steps
        },
    }
}

/// Answers a menu event that reports the id `id`. Every id but those of the
/// three toggles and of quit is ignored.
pub fn on_menu_event(id: &str, window: WindowProbe) -> (steps: Vec<Action>)
    ensures
        steps@ == menu_steps(MenuId::lookup(id@), window),
{
    match MenuId::parse(id) {
        Some(item) => on_menu_item(item, window),
        None => Vec::new(),
    }
}

/// Answers an event on the tray icon.
pub fn on_tray_icon_event(event: TrayIconEvent, window: WindowProbe) -> (steps: Vec<Action>)
    ensures
        steps@ == tray_icon_steps(event, window),
{
    match event {
        TrayIconEvent::Click { button: MouseButton::Left, button_state: MouseButtonState::Up } => {
            toggle_window(window)
        },
        _ => Vec::new(),
    }
}

/// The steps at startup: the window, if there is one, is hidden.
pub fn setup(window: WindowProbe) -> (steps: Vec<Action>)
    ensures
        steps@ == hide_steps(window),
{
    hide_window(window)
}

/// Whether the window is shown once `steps` have been carried out in order
/// on a window that was shown or not as `before` says.
pub fn visibility_after(steps: &Vec<Action>, before: bool) -> (shown: bool)
    ensures
        shown == shown_after(steps@, before),
{
    let mut shown = before;
    let mut i: usize = 0;
    while i < steps.len()
        invariant
            i <= steps@.len(),
            shown == shown_after(steps@.take(i as int), before),
        decreases steps@.len() - i,
    {
        proof {
            let next = steps@.take(i + 1);
            assert(next.drop_last() =~= steps@.take(i as int));
            assert(next.last() == steps@[i as int]);
        }
        shown = match steps[i] {
            Action::Show => true,
            Action::Hide => false,
            _ => shown,
        };
        i = i + 1;
    }
    assert(steps@.take(i as int) =~= steps@);
    shown
}

/// The left button coming up on the tray icon is answered as a click on the
/// window toggle of the menu is.
pub proof fn lemma_left_release_toggles(window: WindowProbe)
    ensures
        tray_icon_steps(
            (TrayIconEvent::Click {
                button: MouseButton::Left,
                button_state: MouseButtonState::Up,
            }),
            window,
        ) == menu_steps(Some(MenuId::ToggleWindow), window),
{
}

/// Flipping a window that is there turns a shown window into a hidden one
/// and any other into a shown one, and the notification sent last names the
/// new condition.
pub proof fn lemma_toggle_flips(window: WindowProbe)
    requires
        !(window is Missing),
    ensures
        shown_after(toggle_steps(window), window.shown()) == !window.shown(),
        toggle_steps(window).last() == Action::Emit(
            if window.shown() {
                Notification::WindowHidden
            } else {
                Notification::WindowShown
            },
        ),
{
    let steps = toggle_steps(window);
    let before = window.shown();
    if before {
        let first = seq![Action::Hide];
        assert(steps.drop_last() =~= first);
        assert(first.drop_last() =~= Seq::<Action>::empty());
        assert(shown_after(first.drop_last(), before) == before);
        assert(shown_after(first, before) == false);
    } else {
        let second = seq![Action::Show, Action::Focus];
        let first = seq![Action::Show];
        assert(steps.drop_last() =~= second);
        assert(second.drop_last() =~= first);
        assert(first.drop_last() =~= Seq::<Action>::empty());
        assert(shown_after(first.drop_last(), before) == before);
        assert(shown_after(first, before) == true);
        assert(shown_after(second, before) == true);
    }
}

/// Flipping twice brings the window back to where it was: where the second
/// flip meets the window as the first one left it, it is shown afterwards
/// exactly if it was shown before.
pub proof fn lemma_toggle_twice_restores(window: WindowProbe)
    requires
        !(window is Missing),
    ensures
        ({
            let between = WindowProbe::Present {
                visible: Some(shown_after(toggle_steps(window), window.shown())),
            };
            shown_after(toggle_steps(between), between.shown()) == window.shown()
        }),
{
    lemma_toggle_flips(window);
    let between = WindowProbe::Present {
        visible: Some(shown_after(toggle_steps(window), window.shown())),
    };
    lemma_toggle_flips(between);
}

/// Every id but those of the three toggles and of quit is ignored: the
/// event has no steps, whatever the window, and the window stays as it is.
pub proof fn lemma_other_ids_are_ignored(id: Seq<char>, window: WindowProbe)
    requires
        id != MenuId::ToggleWindow.name(),
        id != MenuId::TogglePlayback.name(),
        id != MenuId::ToggleMode.name(),
        id != MenuId::Quit.name(),
    ensures
        menu_steps(MenuId::lookup(id), window) == Seq::<Action>::empty(),
        shown_after(menu_steps(MenuId::lookup(id), window), window.shown()) == window.shown(),
{
}

/// A click on the hide item is ignored, by its id and as an item.
pub proof fn lemma_hide_is_ignored(window: WindowProbe)
    ensures
        menu_steps(MenuId::lookup(MenuId::Hide.name()), window) == Seq::<Action>::empty(),
        menu_steps(Some(MenuId::Hide), window) == Seq::<Action>::empty(),
{
    crate::menu::lemma_lookup_finds_name(MenuId::Hide);
}

/// Only the quit item ends the process, and it does so with exit code 0.
pub proof fn lemma_exit_only_on_quit(id: Option<MenuId>, window: WindowProbe, i: int, code: i32)
    requires
        0 <= i < menu_steps(id, window).len(),
        menu_steps(id, window)[i] == Action::Exit(code),
    ensures
        id == Some(MenuId::Quit),
        code == 0,
{
}

/// No event on the tray icon ends the process.
pub proof fn lemma_tray_icon_never_exits(event: TrayIconEvent, window: WindowProbe, i: int)
    requires
        0 <= i < tray_icon_steps(event, window).len(),
    ensures
        !(tray_icon_steps(event, window)[i] is Exit),
{
}

} // verus!
