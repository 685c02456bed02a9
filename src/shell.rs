use vstd::prelude::*;

use crate::events::{
    Action,
    MouseButton,
    MouseButtonState,
    ShellEvent,
    TrayEvent,
    WindowEvent,
    event_action,
    menu_action_of,
    route_event,
    tray_action_of,
    window_action_of,
};

verus! {

/// Visibility and focus of the main window.
#[derive(Clone, Copy, Debug, PartialEq, Eq, Structural)]
pub struct WindowState {
    pub visible: bool,
    pub focused: bool,
}

/// Context shared by every event handler: the main window (if it can be found)
/// and the exit code once the process has been told to terminate.
#[derive(Clone, Copy, Debug, PartialEq, Eq, Structural)]
pub struct Shell {
    pub main_window: Option<WindowState>,
    pub exit_code: Option<i32>,
}

/// Why the shell could not be set up.
#[derive(Clone, Copy, Debug, PartialEq, Eq, Structural)]
pub enum SetupError {
    /// No window is registered under the name "main".
    MissingMainWindow,
}

pub open spec fn shown() -> WindowState {
    WindowState { visible: true, focused: true }
}

pub open spec fn hidden() -> WindowState {
    WindowState { visible: false, focused: false }
}

/// Applies `f` to the main window if there is one; a missing window is left missing.
pub open spec fn with_window(w: Option<WindowState>, f: WindowState) -> Option<WindowState> {
    match w {
        Some(_) => Some(f),
        None => None,
    }
}

/// The shell after the host has carried out `a`.
pub open spec fn after(s: Shell, a: Action) -> Shell {
    match a {
        Action::Ignore => s,
        Action::Exit { code } => Shell { main_window: s.main_window, exit_code: Some(code) },
        Action::ShowAndFocus => Shell {
            main_window: with_window(s.main_window, shown()),
            exit_code: s.exit_code,
        },
        Action::Hide | Action::PreventCloseAndHide => Shell {
            main_window: with_window(s.main_window, hidden()),
            exit_code: s.exit_code,
        },
    }
}

/// The shell after event `e`.
pub open spec fn step(s: Shell, e: ShellEvent) -> Shell {
    after(s, event_action(e))
}

impl Shell {
    /// Sets up the shell around the main window found at startup; without one
    /// there is nothing to put in the tray and setup fails.
    pub fn setup(main_window: Option<WindowState>) -> (r: Result<Shell, SetupError>)
        ensures
            main_window.is_none() ==> r == Err::<Shell, SetupError>(SetupError::MissingMainWindow),
            main_window.is_some() ==> r == Ok::<Shell, SetupError>(
                Shell { main_window, exit_code: None },
            ),
    {
        match main_window {
            Some(w) => Ok(Shell { main_window: Some(w), exit_code: None }),
            None => Err(SetupError::MissingMainWindow),
        }
    }

    /// Records the effect of an action carried out by the host.
    pub fn perform(&mut self, a: Action)
        ensures
            *final(self) == after(*old(self), a),
    {
        match a {
            Action::Ignore => {},
            Action::Exit { code } => {
                self.exit_code = Some(code);
            },
            Action::ShowAndFocus => {
                if self.main_window.is_some() {
                    self.main_window = Some(WindowState { visible: true, focused: true });
                }
            },
            Action::Hide | Action::PreventCloseAndHide => {
                if self.main_window.is_some() {
                    self.main_window = Some(WindowState { visible: false, focused: false });
                }
            },
        }
    }

    /// Routes an event and records its effect; returns what the host must do.
    pub fn dispatch(&mut self, e: &ShellEvent) -> (r: Action)
        ensures
            r == event_action(*e),
            *final(self) == step(*old(self), *e),
    {
        let a = route_event(e);
        self.perform(a);
        a
    }
}

proof fn menu_ids_differ()
    ensures
        "show"@ != "quit"@,
        "hide"@ != "quit"@,
        "hide"@ != "show"@,
{
    reveal_strlit("quit");
    reveal_strlit("show");
    reveal_strlit("hide");
    assert("show"@[0] != "quit"@[0]);
    assert("hide"@[0] != "quit"@[0]);
    assert("hide"@[0] != "show"@[0]);
}

/// Choosing "quit" terminates the process with exit code 0 whatever state the
/// main window is in, and leaves the window as it was.
pub proof fn quit_exits_with_zero(s: Shell)
    ensures
        menu_action_of("quit"@) == (Action::Exit { code: 0 }),
        after(s, menu_action_of("quit"@)).exit_code == Some(0i32),
        after(s, menu_action_of("quit"@)).main_window == s.main_window,
{
}

/// Choosing "hide" while the main window is visible makes it not visible;
/// choosing "show" afterwards makes it visible and focused.
pub proof fn hide_then_show(s: Shell)
    requires
        s.main_window.is_some(),
        s.main_window.unwrap().visible,
    ensures
        !after(s, menu_action_of("hide"@)).main_window.unwrap().visible,
        after(after(s, menu_action_of("hide"@)), menu_action_of("show"@)).main_window == Some(
            shown(),
        ),
{
    menu_ids_differ();
}

/// No event removes the main window or brings one that was not there.
pub proof fn window_is_never_destroyed(s: Shell, e: ShellEvent)
    ensures
        step(s, e).main_window.is_some() == s.main_window.is_some(),
{
}

/// A close request on the main window hides it without destroying it, and
/// choosing "show" afterwards brings it back.
pub proof fn close_request_keeps_window(s: Shell)
    requires
        s.main_window.is_some(),
    ensures
        window_action_of(WindowEvent::CloseRequested) == Action::PreventCloseAndHide,
        after(s, window_action_of(WindowEvent::CloseRequested)).main_window == Some(hidden()),
        after(
            after(s, window_action_of(WindowEvent::CloseRequested)),
            menu_action_of("show"@),
        ).main_window == Some(shown()),
        after(s, window_action_of(WindowEvent::CloseRequested)).exit_code == s.exit_code,
{
    menu_ids_differ();
}

/// A left-button release on the tray icon has the same effect as the "show"
/// item; every other tray icon interaction leaves the shell unchanged.
pub proof fn tray_release_is_show(s: Shell, e: TrayEvent)
    ensures
        e == (TrayEvent::Click { button: MouseButton::Left, button_state: MouseButtonState::Up })
            ==> step(s, ShellEvent::Tray(e)) == after(s, menu_action_of("show"@)),
        e != (TrayEvent::Click { button: MouseButton::Left, button_state: MouseButtonState::Up })
            ==> step(s, ShellEvent::Tray(e)) == s,
{
    menu_ids_differ();
}

} // verus!
