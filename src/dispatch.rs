use vstd::prelude::*;

use crate::text::text_eq;

verus! {

/// Name of the window that receives every menu notification.
pub const MAIN_WINDOW: &'static str = "main";

/// An application command reachable from a custom menu item.
#[derive(Clone, Copy, Debug, PartialEq, Eq, Structural)]
pub enum MenuAction {
    New,
    Open,
    Save,
    SaveAs,
    Undo,
    Redo,
    CheckUpdates,
}

impl MenuAction {
    /// The identifier carried by the menu item of this action.
    pub open spec fn spec_id(self) -> Seq<char> {
        match self {
            MenuAction::New => "new"@,
            MenuAction::Open => "open"@,
            MenuAction::Save => "save"@,
            MenuAction::SaveAs => "save_as"@,
            MenuAction::Undo => "undo"@,
            MenuAction::Redo => "redo"@,
            MenuAction::CheckUpdates => "check_updates"@,
        }
    }

    /// The name of the notification that this action sends to the front end.
    pub open spec fn spec_event(self) -> Seq<char> {
        match self {
            MenuAction::New => "menu-new"@,
            MenuAction::Open => "menu-open"@,
            MenuAction::Save => "menu-save"@,
            MenuAction::SaveAs => "menu-save-as"@,
            MenuAction::Undo => "menu-undo"@,
            MenuAction::Redo => "menu-redo"@,
            MenuAction::CheckUpdates => "menu-check-updates"@,
        }
    }

    pub fn id(&self) -> (r: &'static str)
        ensures
            r@ == self.spec_id(),
    {
        match self {
            MenuAction::New => "new",
            MenuAction::Open => "open",
            MenuAction::Save => "save",
            MenuAction::SaveAs => "save_as",
            MenuAction::Undo => "undo",
            MenuAction::Redo => "redo",
            MenuAction::CheckUpdates => "check_updates",
        }
    }

    pub fn event_name(&self) -> (r: &'static str)
        ensures
            r@ == self.spec_event(),
    {
        match self {
            MenuAction::New => "menu-new",
            MenuAction::Open => "menu-open",
            MenuAction::Save => "menu-save",
            MenuAction::SaveAs => "menu-save-as",
            MenuAction::Undo => "menu-undo",
            MenuAction::Redo => "menu-redo",
            MenuAction::CheckUpdates => "menu-check-updates",
        }
    }
}

/// The dispatch table: which action, if any, a menu identifier stands for.
/// Identifiers are compared exactly, case included.
pub open spec fn action_of_id(id: Seq<char>) -> Option<MenuAction> {
    if id == "new"@ {
        Some(MenuAction::New)
    } else if id == "open"@ {
        Some(MenuAction::Open)
    } else if id == "save"@ {
        Some(MenuAction::Save)
    } else if id == "save_as"@ {
        Some(MenuAction::SaveAs)
    } else if id == "undo"@ {
        Some(MenuAction::Undo)
    } else if id == "redo"@ {
        Some(MenuAction::Redo)
    } else if id == "check_updates"@ {
        Some(MenuAction::CheckUpdates)
    } else {
        None
    }
}

/// Looks an activated item's identifier up in the dispatch table.
pub fn action_for_id(id: &str) -> (r: Option<MenuAction>)
    ensures
        r == action_of_id(id@),
{
    if text_eq(id, "new") {
        Some(MenuAction::New)
    } else if text_eq(id, "open") {
        Some(MenuAction::Open)
    } else if text_eq(id, "save") {
        Some(MenuAction::Save)
    } else if text_eq(id, "save_as") {
        Some(MenuAction::SaveAs)
    } else if text_eq(id, "undo") {
        Some(MenuAction::Undo)
    } else if text_eq(id, "redo") {
        Some(MenuAction::Redo)
    } else if text_eq(id, "check_updates") {
        Some(MenuAction::CheckUpdates)
    } else {
        None
    }
}

/// A payload-less notification addressed to a named window.
#[derive(Clone, Copy, Debug, PartialEq, Eq)]
pub struct Notification {
    pub target: &'static str,
    pub event: &'static str,
}

/// What a notification is: the window it goes to and its name.
pub struct NotificationView {
    pub target: Seq<char>,
    pub event: Seq<char>,
}

impl View for Notification {
    type V = NotificationView;

    open spec fn view(&self) -> NotificationView {
        NotificationView { target: self.target@, event: self.event@ }
    }
}

/// The notification that activating `id` sends, if any.
pub open spec fn dispatch_spec(id: Seq<char>) -> Option<NotificationView> {
    match action_of_id(id) {
        Some(a) => Some(NotificationView { target: MAIN_WINDOW@, event: a.spec_event() }),
        None => None,
    }
}

/// Handles one menu activation: the notification to send to the main window,
/// or `None` where the identifier is not in the dispatch table.
pub fn dispatch_menu_event(id: &str) -> (r: Option<Notification>)
    ensures
        match r {
            Some(n) => dispatch_spec(id@) == Some(n@),
            None => dispatch_spec(id@).is_none(),
        },
{
    match action_for_id(id) {
        Some(a) => Some(Notification { target: MAIN_WINDOW, event: a.event_name() }),
        None => None,
    }
}

/// Every action's identifier is in the dispatch table, and activating it sends
/// exactly one notification: the action's own, to the main window.
pub proof fn lemma_known_identifier_notifies(a: MenuAction)
    ensures
        action_of_id(a.spec_id()) == Some(a),
        dispatch_spec(a.spec_id()) == Some(
            NotificationView { target: "main"@, event: a.spec_event() },
        ),
{
    reveal_strlit("new");
    reveal_strlit("open");
    reveal_strlit("save");
    reveal_strlit("save_as");
    reveal_strlit("undo");
    reveal_strlit("redo");
    reveal_strlit("check_updates");
    reveal_strlit("main");
    assert(MAIN_WINDOW@ == "main"@);
    assert("open"@[0] != "save"@[0]);
    assert("open"@[0] != "undo"@[0]);
    assert("open"@[0] != "redo"@[0]);
    assert("save"@[0] != "undo"@[0]);
    assert("save"@[0] != "redo"@[0]);
    assert("undo"@[0] != "redo"@[0]);
    match a {
        MenuAction::New => {},
        MenuAction::Open => {
            assert("open"@ != "new"@);
        },
        MenuAction::Save => {
            assert("save"@ != "new"@);
            assert("save"@ != "open"@);
        },
        MenuAction::SaveAs => {
            assert("save_as"@.len() == 7);
        },
        MenuAction::Undo => {
            assert("undo"@ != "open"@);
            assert("undo"@ != "save"@);
        },
        MenuAction::Redo => {
            assert("redo"@ != "open"@);
            assert("redo"@ != "save"@);
            assert("redo"@ != "undo"@);
        },
        MenuAction::CheckUpdates => {
            assert("check_updates"@.len() == 13);
        },
    }
}

/// An identifier that belongs to no action (a predefined item's, or any other)
/// sends no notification.
pub proof fn lemma_unknown_identifier_is_silent(id: Seq<char>)
    requires
        forall|a: MenuAction| id != a.spec_id(),
    ensures
        action_of_id(id).is_none(),
        dispatch_spec(id).is_none(),
{
    assert(id != MenuAction::New.spec_id());
    assert(id != MenuAction::Open.spec_id());
    assert(id != MenuAction::Save.spec_id());
    assert(id != MenuAction::SaveAs.spec_id());
    assert(id != MenuAction::Undo.spec_id());
    assert(id != MenuAction::Redo.spec_id());
    assert(id != MenuAction::CheckUpdates.spec_id());
}

} // verus!
