use desktop_shell::events::{
    menu_action, route_event, tray_action, window_action, Action, MouseButton, MouseButtonState,
    ShellEvent, TrayEvent, WindowEvent,
};
use desktop_shell::text::same_text;

#[test]
fn menu_ids_route_to_their_actions() {
    assert_eq!(menu_action("quit"), Action::Exit { code: 0 });
    assert_eq!(menu_action("show"), Action::ShowAndFocus);
    assert_eq!(menu_action("hide"), Action::Hide);
}

#[test]
fn unknown_menu_ids_are_ignored() {
    assert_eq!(menu_action(""), Action::Ignore);
    assert_eq!(menu_action("Quit"), Action::Ignore);
    assert_eq!(menu_action("quit "), Action::Ignore);
    assert_eq!(menu_action("sho"), Action::Ignore);
    assert_eq!(menu_action("hidden"), Action::Ignore);
}

#[test]
fn only_left_release_on_tray_shows() {
    let left_up = TrayEvent::Click { button: MouseButton::Left, button_state: MouseButtonState::Up };
    assert_eq!(tray_action(left_up), Action::ShowAndFocus);
    let left_down =
        TrayEvent::Click { button: MouseButton::Left, button_state: MouseButtonState::Down };
    assert_eq!(tray_action(left_down), Action::Ignore);
    let right_up =
        TrayEvent::Click { button: MouseButton::Right, button_state: MouseButtonState::Up };
    assert_eq!(tray_action(right_up), Action::Ignore);
    let middle_up =
        TrayEvent::Click { button: MouseButton::Middle, button_state: MouseButtonState::Up };
    assert_eq!(tray_action(middle_up), Action::Ignore);
    assert_eq!(tray_action(TrayEvent::DoubleClick { button: MouseButton::Left }), Action::Ignore);
    assert_eq!(tray_action(TrayEvent::Enter), Action::Ignore);
    assert_eq!(tray_action(TrayEvent::Move), Action::Ignore);
    assert_eq!(tray_action(TrayEvent::Leave), Action::Ignore);
}

#[test]
fn close_request_becomes_hide() {
    assert_eq!(window_action(WindowEvent::CloseRequested), Action::PreventCloseAndHide);
    assert_eq!(window_action(WindowEvent::Other), Action::Ignore);
}

#[test]
fn route_event_covers_every_source() {
    assert_eq!(route_event(&ShellEvent::Menu("quit".to_string())), Action::Exit { code: 0 });
    assert_eq!(route_event(&ShellEvent::Menu("nothing".to_string())), Action::Ignore);
    assert_eq!(
        route_event(&ShellEvent::Tray(TrayEvent::Click {
            button: MouseButton::Left,
            button_state: MouseButtonState::Up
        })),
        Action::ShowAndFocus
    );
    assert_eq!(
        route_event(&ShellEvent::Window(WindowEvent::CloseRequested)),
        Action::PreventCloseAndHide
    );
}

#[test]
fn same_text_compares_characters() {
    assert!(same_text("", ""));
    assert!(same_text("hide", "hide"));
    assert!(same_text("héllo", "héllo"));
    assert!(!same_text("hide", "hid"));
    assert!(!same_text("hide", "hidE"));
    assert!(!same_text("é", "e"));
}
