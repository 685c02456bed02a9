use desktop_shell::commands::{get_app_version, notification_log_line};
use desktop_shell::events::{menu_action, Action};
use desktop_shell::tray::{tray_menu, tray_tooltip};

#[test]
fn app_version_is_fixed_and_non_empty() {
    let v = get_app_version();
    assert_eq!(v, "0.1.0");
    assert!(!v.is_empty());
    assert_eq!(get_app_version(), v);
}

#[test]
fn refused_notification_only_yields_a_log_line() {
    let line = notification_log_line(&Err("permission denied".to_string()));
    assert_eq!(line, Some("Failed to show notification: permission denied".to_string()));
    assert_eq!(notification_log_line(&Err(String::new())), Some("Failed to show notification: ".to_string()));
}

#[test]
fn shown_notification_logs_nothing() {
    assert_eq!(notification_log_line(&Ok(())), None);
}

#[test]
fn tray_menu_lists_show_hide_quit() {
    let m = tray_menu();
    assert_eq!(m.len(), 3);
    let ids: Vec<&str> = m.iter().map(|e| e.id.as_str()).collect();
    let labels: Vec<&str> = m.iter().map(|e| e.label.as_str()).collect();
    assert_eq!(ids, vec!["show", "hide", "quit"]);
    assert_eq!(labels, vec!["Show Window", "Hide Window", "Quit"]);
    assert!(m.iter().all(|e| e.enabled));
    assert_eq!(menu_action(&m[0].id), Action::ShowAndFocus);
    assert_eq!(menu_action(&m[1].id), Action::Hide);
    assert_eq!(menu_action(&m[2].id), Action::Exit { code: 0 });
}

#[test]
fn tray_tooltip_names_the_app() {
    assert_eq!(tray_tooltip(), "Chat SaaS");
}
