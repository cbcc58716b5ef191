use vstd::prelude::*;
use crate::json::text_eq;

verus! {

/// What the application does when a menu item is activated.
pub enum MenuAction {
    /// Send the front-end the named event.
    Notify(String),
    /// Reload the front-end.
    Reload,
    /// Open the developer tools if closed, close them if open.
    ToggleDevtools,
    /// Not an item of this menu.
    Ignore,
}

/// Whether activating the item forwards it to the front-end as an event.
pub open spec fn notifying_item(id: Seq<char>) -> bool {
    ||| id == "new-project"@
    ||| id == "open-project"@
    ||| id == "new-map"@
    ||| id == "new-tileset"@
    ||| id == "new-entity"@
    ||| id == "save-project"@
    ||| id == "save-project-as"@
}

/// The event name under which an item is forwarded.
pub open spec fn menu_event_name(id: Seq<char>) -> Seq<char> {
    "menu:"@ + id
}

/// Whether `id` is one of the forwarded items.
fn is_notifying_item(id: &str) -> (r: bool)
    ensures
        r == notifying_item(id@),
{
    text_eq(id, "new-project") || text_eq(id, "open-project") || text_eq(id, "new-map")
        || text_eq(id, "new-tileset") || text_eq(id, "new-entity") || text_eq(
        id,
        "save-project",
    ) || text_eq(id, "save-project-as")
}

/// Decides what activating menu item `id` does.
pub fn menu_action(id: &str) -> (r: MenuAction)
    ensures
        match r {
            MenuAction::Notify(name) => notifying_item(id@) && name@ == menu_event_name(id@),
            MenuAction::Reload => !notifying_item(id@) && id@ == "reload"@,
            MenuAction::ToggleDevtools => !notifying_item(id@) && id@ != "reload"@ && id@
                == "toggle-devtools"@,
            MenuAction::Ignore => !notifying_item(id@) && id@ != "reload"@ && id@
                != "toggle-devtools"@,
        },
{
    if is_notifying_item(id) {
        let mut name = String::from_str("menu:");
        name.append(id);
        MenuAction::Notify(name)
    } else if text_eq(id, "reload") {
        MenuAction::Reload
    } else if text_eq(id, "toggle-devtools") {
        MenuAction::ToggleDevtools
    } else {
        MenuAction::Ignore
    }
}

} // verus!
