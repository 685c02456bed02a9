use vstd::prelude::*;

use crate::text::same_text;

verus! {

/// Mouse button named in a tray icon event.
#[derive(Clone, Copy, Debug, PartialEq, Eq, Structural)]
pub enum MouseButton {
    Left,
    Right,
    Middle,
}

/// Whether a mouse button went down or came up.
#[derive(Clone, Copy, Debug, PartialEq, Eq, Structural)]
pub enum MouseButtonState {
    Up,
    Down,
}

/// Raw interaction with the tray icon itself (not with its menu).
#[derive(Clone, Copy, Debug, PartialEq, Eq, Structural)]
pub enum TrayEvent {
    Click { button: MouseButton, button_state: MouseButtonState },
    DoubleClick { button: MouseButton },
    Enter,
    Move,
    Leave,
}

/// Event delivered to the main window.
#[derive(Clone, Copy, Debug, PartialEq, Eq, Structural)]
pub enum WindowEvent {
    CloseRequested,
    Other,
}

/// Any event the shell reacts to: a tray menu item (by its identifier),
/// a tray icon interaction, or a main window event.
#[derive(Clone, Debug)]
pub enum ShellEvent {
    Menu(String),
    Tray(TrayEvent),
    Window(WindowEvent),
}

/// What the host has to do in answer to an event.
#[derive(Clone, Copy, Debug, PartialEq, Eq, Structural)]
pub enum Action {
    /// Nothing at all.
    Ignore,
    /// Terminate the process with the given exit code.
    Exit { code: i32 },
    /// Make the main window visible and give it input focus, if it exists.
    ShowAndFocus,
    /// Hide the main window, if it exists.
    Hide,
    /// Suppress the default close of the main window and hide it instead.
    PreventCloseAndHide,
}

/// Action for a tray menu item identifier.
pub open spec fn menu_action_of(id: Seq<char>) -> Action {
    if id == "quit"@ {
        Action::Exit { code: 0 }
    } else if id == "show"@ {
        Action::ShowAndFocus
    } else if id == "hide"@ {
        Action::Hide
    } else {
        Action::Ignore
    }
}

/// Action for a tray icon interaction: only a left-button release shows the window.
pub open spec fn tray_action_of(e: TrayEvent) -> Action {
    match e {
        TrayEvent::Click { button: MouseButton::Left, button_state: MouseButtonState::Up } => {
            Action::ShowAndFocus
        },
        _ => Action::Ignore,
    }
}

/// Action for a main window event: closing is turned into hiding.
pub open spec fn window_action_of(e: WindowEvent) -> Action {
    match e {
        WindowEvent::CloseRequested => Action::PreventCloseAndHide,
        WindowEvent::Other => Action::Ignore,
    }
}

pub open spec fn event_action(e: ShellEvent) -> Action {
    match e {
        ShellEvent::Menu(id) => menu_action_of(id@),
        ShellEvent::Tray(t) => tray_action_of(t),
        ShellEvent::Window(w) => window_action_of(w),
    }
}

/// Routes a tray menu item identifier.
pub fn menu_action(id: &str) -> (r: Action)
    ensures
        r == menu_action_of(id@),
{
    if same_text(id, "quit") {
        Action::Exit { code: 0 }
    } else if same_text(id, "show") {
        Action::ShowAndFocus
    } else if same_text(id, "hide") {
        Action::Hide
    } else {
        Action::Ignore
    }
}

/// Routes a tray icon interaction.
pub fn tray_action(e: TrayEvent) -> (r: Action)
    ensures
        r == tray_action_of(e),
{
    match e {
        TrayEvent::Click { button: MouseButton::Left, button_state: MouseButtonState::Up } => {
            Action::ShowAndFocus
        },
        _ => Action::Ignore,
    }
}

/// Routes a main window event.
pub fn window_action(e: WindowEvent) -> (r: Action)
    ensures
        r == window_action_of(e),
{
    match e {
        WindowEvent::CloseRequested => Action::PreventCloseAndHide,
        WindowEvent::Other => Action::Ignore,
    }
}

/// Routes any shell event.
pub fn route_event(e: &ShellEvent) -> (r: Action)
    ensures
        r == event_action(*e),
{
    match e {
        ShellEvent::Menu(id) => menu_action(id.as_str()),
        ShellEvent::Tray(t) => tray_action(*t),
        ShellEvent::Window(w) => window_action(*w),
    }
}

} // verus!
