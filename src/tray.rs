use vstd::prelude::*;
use vstd::string::*;

use crate::events::{Action, menu_action_of};

verus! {

/// One item of the tray menu: the identifier its events carry and the text shown.
#[derive(Clone, Debug)]
pub struct MenuEntry {
    pub id: String,
    pub label: String,
    pub enabled: bool,
}

/// Tooltip of the tray icon.
pub const TRAY_TOOLTIP: &'static str = "Chat SaaS";

pub fn tray_tooltip() -> (r: String)
    ensures
        r@ == TRAY_TOOLTIP@,
{
    String::from_str(TRAY_TOOLTIP)
}

fn entry(id: &str, label: &str) -> (r: MenuEntry)
    ensures
        r.id@ == id@,
        r.label@ == label@,
        r.enabled,
{
    MenuEntry { id: String::from_str(id), label: String::from_str(label), enabled: true }
}

/// The tray menu, top to bottom: show, hide, quit, all enabled. Each item's
/// identifier routes to the action it names.
pub fn tray_menu() -> (r: Vec<MenuEntry>)
    ensures
        r@.len() == 3,
        r@[0].id@ == "show"@,
        r@[0].label@ == "Show Window"@,
        r@[1].id@ == "hide"@,
        r@[1].label@ == "Hide Window"@,
        r@[2].id@ == "quit"@,
        r@[2].label@ == "Quit"@,
        forall|i: int| 0 <= i < 3 ==> #[trigger] r@[i].enabled,
        menu_action_of(r@[0].id@) == Action::ShowAndFocus,
        menu_action_of(r@[1].id@) == Action::Hide,
        menu_action_of(r@[2].id@) == (Action::Exit { code: 0 }),
{
    proof {
        reveal_strlit("quit");
        reveal_strlit("show");
        reveal_strlit("hide");
        assert("show"@[0] != "quit"@[0]);
        assert("hide"@[0] != "quit"@[0]);
        assert("hide"@[0] != "show"@[0]);
    }
    let mut r: Vec<MenuEntry> = Vec::new();
    r.push(entry("show", "Show Window"));
    r.push(entry("hide", "Hide Window"));
    r.push(entry("quit", "Quit"));
    r
}

} // verus!
