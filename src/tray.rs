//! The system tray: its menu, and what a click on one of its items does.
use vstd::prelude::*;

use crate::text::same_text;

verus! {

/// What the shell does in answer to a tray menu click.
#[derive(Clone, Copy, Debug, PartialEq, Eq, Structural)]
pub enum TrayAction {
    ShowWindow,
    HideWindow,
    Quit,
    Ignore,
}

/// One tray menu entry: the id reported on a click, and the title shown.
#[derive(Clone, Copy, Debug)]
pub struct TrayItem {
    pub id: &'static str,
    pub title: &'static str,
}

/// The action for a click on the menu item with id `id`.
pub open spec fn action_for(id: Seq<char>) -> TrayAction {
    if id == "show"@ {
        TrayAction::ShowWindow
    } else if id == "hide"@ {
        TrayAction::HideWindow
    } else if id == "quit"@ {
        TrayAction::Quit
    } else {
        TrayAction::Ignore
    }
}

/// The tray menu, top to bottom, as (id, title) pairs.
pub open spec fn menu_entries() -> Seq<(Seq<char>, Seq<char>)> {
    seq![("show"@, "Show"@), ("hide"@, "Hide"@), ("quit"@, "Quit"@)]
}

/// The tray menu: Show, Hide and Quit, each of which a click acts on, each
/// with its own action.
pub fn tray_menu() -> (r: Vec<TrayItem>)
    ensures
        r@.map_values(|i: TrayItem| (i.id@, i.title@)) == menu_entries(),
        forall|k: int| 0 <= k < r@.len() ==> action_for(#[trigger] r@[k].id@) != TrayAction::Ignore,
        forall|k: int, l: int|
            0 <= k < l < r@.len() ==> action_for(#[trigger] r@[k].id@) != action_for(
                #[trigger] r@[l].id@,
            ),
{
    proof {
        reveal_strlit("show");
        reveal_strlit("hide");
        reveal_strlit("quit");
    }
    let r = vec![
        TrayItem { id: "show", title: "Show" },
        TrayItem { id: "hide", title: "Hide" },
        TrayItem { id: "quit", title: "Quit" },
    ];
    assert("hide"@[0] != "show"@[0]);
    assert("quit"@[0] != "show"@[0] && "quit"@[0] != "hide"@[0]);
    assert(action_for(r@[0].id@) == TrayAction::ShowWindow);
    assert(action_for(r@[1].id@) == TrayAction::HideWindow);
    assert(action_for(r@[2].id@) == TrayAction::Quit);
    assert(r@.map_values(|i: TrayItem| (i.id@, i.title@)) =~= menu_entries());
    r
}

/// The action for a click on the tray menu item with id `id`; an id that is
/// not on the menu is ignored.
pub fn tray_action(id: &str) -> (r: TrayAction)
    ensures
        r == action_for(id@),
{
    if same_text(id, "show") {
        TrayAction::ShowWindow
    } else if same_text(id, "hide") {
        TrayAction::HideWindow
    } else if same_text(id, "quit") {
        TrayAction::Quit
    } else {
        TrayAction::Ignore
    }
}

} // verus!
