use lost_animator::dispatch::{action_for_id, dispatch_menu_event, MenuAction, Notification, MAIN_WINDOW};
use lost_animator::menu::{
    build_menu, file_submenu, MenuConfig, MenuEntry, MenuTree, PredefinedItem, Submenu,
};
use lost_animator::text::text_eq;

fn custom(id: &str, label: &str, accelerator: Option<&str>) -> MenuEntry {
    MenuEntry::Custom {
        id: id.to_string(),
        label: label.to_string(),
        accelerator: accelerator.map(|a| a.to_string()),
    }
}

fn predefined(item: PredefinedItem, label: &str) -> MenuEntry {
    MenuEntry::Predefined { item, label: label.to_string() }
}

fn custom_ids(tree: &MenuTree) -> Vec<String> {
    let mut ids = Vec::new();
    for m in &tree.submenus {
        for e in &m.entries {
            if let MenuEntry::Custom { id, .. } = e {
                ids.push(id.clone());
            }
        }
    }
    ids
}

fn titles(tree: &MenuTree) -> Vec<&str> {
    tree.submenus.iter().map(|m| m.title.as_str()).collect()
}

#[test]
fn activation_new_notifies_main() {
    let n = dispatch_menu_event("new");
    assert_eq!(n, Some(Notification { target: "main", event: "menu-new" }));
}

#[test]
fn activation_save_as_notifies_main() {
    let n = dispatch_menu_event("save_as");
    assert_eq!(n, Some(Notification { target: "main", event: "menu-save-as" }));
}

#[test]
fn activation_check_updates_notifies_main() {
    let n = dispatch_menu_event("check_updates");
    assert_eq!(n, Some(Notification { target: "main", event: "menu-check-updates" }));
}

#[test]
fn activation_of_every_known_identifier() {
    let table = [
        ("new", "menu-new"),
        ("open", "menu-open"),
        ("save", "menu-save"),
        ("save_as", "menu-save-as"),
        ("undo", "menu-undo"),
        ("redo", "menu-redo"),
        ("check_updates", "menu-check-updates"),
    ];
    for (id, event) in table {
        assert_eq!(dispatch_menu_event(id), Some(Notification { target: MAIN_WINDOW, event }));
    }
    assert_eq!(MAIN_WINDOW, "main");
}

#[test]
fn activation_bogus_id_is_silent() {
    assert_eq!(dispatch_menu_event("bogus_id"), None);
}

#[test]
fn unknown_identifiers_are_silent() {
    for id in ["", "NEW", "New", "save-as", "menu-new", "new ", "quit", "copy", "minimize", "check_update"] {
        assert_eq!(dispatch_menu_event(id), None, "identifier {:?}", id);
        assert_eq!(action_for_id(id), None);
    }
}

#[test]
fn action_identifiers_round_trip() {
    let all = [
        MenuAction::New,
        MenuAction::Open,
        MenuAction::Save,
        MenuAction::SaveAs,
        MenuAction::Undo,
        MenuAction::Redo,
        MenuAction::CheckUpdates,
    ];
    for a in all {
        assert_eq!(action_for_id(a.id()), Some(a));
    }
    assert_eq!(MenuAction::SaveAs.id(), "save_as");
    assert_eq!(MenuAction::SaveAs.event_name(), "menu-save-as");
    assert_eq!(MenuAction::CheckUpdates.event_name(), "menu-check-updates");
}

#[test]
fn text_eq_compares_exactly() {
    assert!(text_eq("save", "save"));
    assert!(text_eq("", ""));
    assert!(!text_eq("save", "Save"));
    assert!(!text_eq("save", "save_as"));
    assert!(!text_eq("redo", "undo"));
}

#[test]
fn file_menu_order() {
    let m = file_submenu();
    assert_eq!(m.title, "File");
    assert_eq!(
        m.entries,
        vec![
            custom("new", "New", Some("CmdOrCtrl+N")),
            MenuEntry::Separator,
            custom("open", "Open...", Some("CmdOrCtrl+O")),
            MenuEntry::Separator,
            custom("save", "Save", Some("CmdOrCtrl+S")),
            custom("save_as", "Save As...", Some("CmdOrCtrl+Shift+S")),
            MenuEntry::Separator,
            predefined(PredefinedItem::CloseWindow, "Close"),
        ]
    );
}

#[test]
fn build_twice_gives_identical_trees() {
    for cfg in [MenuConfig::full(), MenuConfig::reduced()] {
        assert_eq!(build_menu(cfg), build_menu(cfg));
    }
}

#[test]
fn full_menu_layout() {
    let tree = build_menu(MenuConfig::full());
    assert_eq!(titles(&tree), vec!["Lost Animator", "File", "Edit", "View", "Window", "Help"]);
    assert_eq!(tree.submenus[1], file_submenu());
    assert_eq!(
        tree.submenus[2].entries,
        vec![
            custom("undo", "Undo", Some("CmdOrCtrl+Z")),
            custom("redo", "Redo", Some("CmdOrCtrl+Shift+Z")),
            MenuEntry::Separator,
            predefined(PredefinedItem::Cut, "Cut"),
            predefined(PredefinedItem::Copy, "Copy"),
            predefined(PredefinedItem::Paste, "Paste"),
            predefined(PredefinedItem::SelectAll, "Select All"),
        ]
    );
    assert_eq!(
        tree.submenus[5],
        Submenu {
            title: "Help".to_string(),
            entries: vec![custom("check_updates", "Check for Updates...", None)],
        }
    );
    assert_eq!(tree.submenus[0].entries.len(), 9);
    assert_eq!(tree.submenus[0].entries[8], predefined(PredefinedItem::Quit, "Quit Lost Animator"));
}

#[test]
fn reduced_menu_has_no_update_check() {
    let tree = build_menu(MenuConfig::reduced());
    assert_eq!(titles(&tree), vec!["File", "Edit", "View", "Window"]);
    let ids = custom_ids(&tree);
    assert_eq!(ids, vec!["new", "open", "save", "save_as", "undo", "redo"]);
    assert!(!ids.iter().any(|id| id == "check_updates"));
}

#[test]
fn every_custom_item_dispatches_once() {
    let tree = build_menu(MenuConfig::full());
    let ids = custom_ids(&tree);
    assert_eq!(ids.len(), 7);
    for (k, id) in ids.iter().enumerate() {
        assert!(dispatch_menu_event(id).is_some(), "identifier {:?}", id);
        assert_eq!(ids.iter().filter(|other| *other == id).count(), 1, "position {}", k);
    }
}

#[test]
fn window_and_view_menus() {
    let tree = build_menu(MenuConfig::reduced());
    assert_eq!(
        tree.submenus[2].entries,
        vec![predefined(PredefinedItem::Fullscreen, "Toggle Fullscreen")]
    );
    assert_eq!(
        tree.submenus[3].entries,
        vec![
            predefined(PredefinedItem::Minimize, "Minimize"),
            predefined(PredefinedItem::Maximize, "Zoom"),
            MenuEntry::Separator,
            predefined(PredefinedItem::CloseWindow, "Close"),
        ]
    );
}

#[test]
fn submenu_builder_appends_in_order() {
    let mut m = Submenu::new("Tools");
    m.push_custom("undo", "Undo", None);
    m.push_separator();
    m.push_predefined(PredefinedItem::Copy, "Copy");
    assert_eq!(m.title, "Tools");
    assert_eq!(
        m.entries,
        vec![custom("undo", "Undo", None), MenuEntry::Separator, predefined(PredefinedItem::Copy, "Copy")]
    );
}
