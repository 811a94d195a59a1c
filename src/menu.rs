use vstd::prelude::*;

verus! {

/// A menu entry whose behaviour the host platform supplies; it is never dispatched.
#[derive(Clone, Copy, Debug, PartialEq, Eq, Structural)]
pub enum PredefinedItem {
    About,
    Services,
    Hide,
    HideOthers,
    ShowAll,
    Quit,
    CloseWindow,
    Cut,
    Copy,
    Paste,
    SelectAll,
    Fullscreen,
    Minimize,
    Maximize,
}

/// One entry of a submenu.
#[derive(Clone, Debug, PartialEq, Eq)]
pub enum MenuEntry {
    /// An item of the application's own, dispatched by its identifier.
    Custom { id: String, label: String, accelerator: Option<String> },
    /// An item of the host platform, shown under the given label.
    Predefined { item: PredefinedItem, label: String },
    Separator,
}

/// What a menu entry is, with its texts as character sequences.
pub enum EntryView {
    Custom { id: Seq<char>, label: Seq<char>, accelerator: Option<Seq<char>> },
    Predefined { item: PredefinedItem, label: Seq<char> },
    Separator,
}

/// The character sequence of an optional text.
pub open spec fn opt_text_view(s: Option<String>) -> Option<Seq<char>> {
    match s {
        Some(t) => Some(t@),
        None => None,
    }
}

impl View for MenuEntry {
    type V = EntryView;

    open spec fn view(&self) -> EntryView {
        match self {
            MenuEntry::Custom { id, label, accelerator } => EntryView::Custom {
                id: id@,
                label: label@,
                accelerator: opt_text_view(*accelerator),
            },
            MenuEntry::Predefined { item, label } => EntryView::Predefined {
                item: *item,
                label: label@,
            },
            MenuEntry::Separator => EntryView::Separator,
        }
    }
}

/// A titled submenu: an ordered sequence of entries.
#[derive(Clone, Debug, PartialEq, Eq)]
pub struct Submenu {
    pub title: String,
    pub entries: Vec<MenuEntry>,
}

/// What a submenu is: its title and the views of its entries, in order.
pub struct SubmenuView {
    pub title: Seq<char>,
    pub entries: Seq<EntryView>,
}

impl View for Submenu {
    type V = SubmenuView;

    open spec fn view(&self) -> SubmenuView {
        SubmenuView { title: self.title@, entries: self.entries@.map_values(|e: MenuEntry| e@) }
    }
}

impl Submenu {
    /// An empty submenu with the given title.
    pub fn new(title: &str) -> (r: Submenu)
        ensures
            r@ == (SubmenuView { title: title@, entries: Seq::empty() }),
    {
        let r = Submenu { title: String::from_str(title), entries: Vec::new() };
        assert(r@.entries =~= Seq::<EntryView>::empty());
        r
    }

    fn push_entry(&mut self, e: MenuEntry)
        ensures
            final(self)@ == (SubmenuView {
                title: old(self)@.title,
                entries: old(self)@.entries.push(e@),
            }),
    {
        self.entries.push(e);
        assert(self@.entries =~= old(self)@.entries.push(e@));
    }

    /// Appends an item of the application's own.
    pub fn push_custom(&mut self, id: &str, label: &str, accelerator: Option<&str>)
        ensures
            final(self)@ == (SubmenuView {
                title: old(self)@.title,
                entries: old(self)@.entries.push(
                    EntryView::Custom {
                        id: id@,
                        label: label@,
                        accelerator: match accelerator {
                            Some(a) => Some(a@),
                            None => None,
                        },
                    },
                ),
            }),
    {
        let accelerator = match accelerator {
            Some(a) => Some(String::from_str(a)),
            None => None,
        };
        self.push_entry(
            MenuEntry::Custom { id: String::from_str(id), label: String::from_str(label), accelerator },
        );
    }

    /// Appends an item of the host platform under the given label.
    pub fn push_predefined(&mut self, item: PredefinedItem, label: &str)
        ensures
            final(self)@ == (SubmenuView {
                title: old(self)@.title,
                entries: old(self)@.entries.push(EntryView::Predefined { item, label: label@ }),
            }),
    {
        self.push_entry(MenuEntry::Predefined { item, label: String::from_str(label) });
    }

    /// Appends a separator.
    pub fn push_separator(&mut self)
        ensures
            final(self)@ == (SubmenuView {
                title: old(self)@.title,
                entries: old(self)@.entries.push(EntryView::Separator),
            }),
    {
        self.push_entry(MenuEntry::Separator);
    }
}

/// Which optional submenus a platform shows around the fixed File, Edit, View
/// and Window submenus.
#[derive(Clone, Copy, Debug, PartialEq, Eq, Structural)]
pub struct MenuConfig {
    /// The application-identity submenu, first in the bar.
    pub app_menu: bool,
    /// The Help submenu with its update check, last in the bar.
    pub help_menu: bool,
}

impl MenuConfig {
    pub open spec fn full_spec() -> MenuConfig {
        MenuConfig { app_menu: true, help_menu: true }
    }

    /// The richer variant: application-identity and Help submenus included.
    pub fn full() -> (r: MenuConfig)
        ensures
            r == MenuConfig::full_spec(),
    {
        MenuConfig { app_menu: true, help_menu: true }
    }

    /// The reduced variant: File, Edit, View and Window only.
    pub fn reduced() -> (r: MenuConfig)
        ensures
            r == (MenuConfig { app_menu: false, help_menu: false }),
    {
        MenuConfig { app_menu: false, help_menu: false }
    }
}

/// The whole menu bar: its submenus in order.
#[derive(Clone, Debug, PartialEq, Eq)]
pub struct MenuTree {
    pub submenus: Vec<Submenu>,
}

impl View for MenuTree {
    type V = Seq<SubmenuView>;

    open spec fn view(&self) -> Seq<SubmenuView> {
        self.submenus@.map_values(|m: Submenu| m@)
    }
}

/// An application item with the given identifier, label and accelerator.
pub open spec fn custom_view(id: Seq<char>, label: Seq<char>, accelerator: Option<Seq<char>>) -> EntryView {
    EntryView::Custom { id, label, accelerator }
}

/// A platform item under the given label.
pub open spec fn predefined_view(item: PredefinedItem, label: Seq<char>) -> EntryView {
    EntryView::Predefined { item, label }
}

pub open spec fn app_submenu_spec() -> SubmenuView {
    SubmenuView {
        title: "Lost Animator"@,
        entries: seq![
            predefined_view(PredefinedItem::About, "About Lost Animator"@),
            EntryView::Separator,
            predefined_view(PredefinedItem::Services, "Services"@),
            EntryView::Separator,
            predefined_view(PredefinedItem::Hide, "Hide Lost Animator"@),
            predefined_view(PredefinedItem::HideOthers, "Hide Others"@),
            predefined_view(PredefinedItem::ShowAll, "Show All"@),
            EntryView::Separator,
            predefined_view(PredefinedItem::Quit, "Quit Lost Animator"@),
        ],
    }
}

pub open spec fn file_submenu_spec() -> SubmenuView {
    SubmenuView {
        title: "File"@,
        entries: seq![
            custom_view("new"@, "New"@, Some("CmdOrCtrl+N"@)),
            EntryView::Separator,
            custom_view("open"@, "Open..."@, Some("CmdOrCtrl+O"@)),
            EntryView::Separator,
            custom_view("save"@, "Save"@, Some("CmdOrCtrl+S"@)),
            custom_view("save_as"@, "Save As..."@, Some("CmdOrCtrl+Shift+S"@)),
            EntryView::Separator,
            predefined_view(PredefinedItem::CloseWindow, "Close"@),
        ],
    }
}

pub open spec fn edit_submenu_spec() -> SubmenuView {
    SubmenuView {
        title: "Edit"@,
        entries: seq![
            custom_view("undo"@, "Undo"@, Some("CmdOrCtrl+Z"@)),
            custom_view("redo"@, "Redo"@, Some("CmdOrCtrl+Shift+Z"@)),
            EntryView::Separator,
            predefined_view(PredefinedItem::Cut, "Cut"@),
            predefined_view(PredefinedItem::Copy, "Copy"@),
            predefined_view(PredefinedItem::Paste, "Paste"@),
            predefined_view(PredefinedItem::SelectAll, "Select All"@),
        ],
    }
}

pub open spec fn view_submenu_spec() -> SubmenuView {
    SubmenuView {
        title: "View"@,
        entries: seq![predefined_view(PredefinedItem::Fullscreen, "Toggle Fullscreen"@)],
    }
}

pub open spec fn window_submenu_spec() -> SubmenuView {
    SubmenuView {
        title: "Window"@,
        entries: seq![
            predefined_view(PredefinedItem::Minimize, "Minimize"@),
            predefined_view(PredefinedItem::Maximize, "Zoom"@),
            EntryView::Separator,
            predefined_view(PredefinedItem::CloseWindow, "Close"@),
        ],
    }
}

pub open spec fn help_submenu_spec() -> SubmenuView {
    SubmenuView {
        title: "Help"@,
        entries: seq![custom_view("check_updates"@, "Check for Updates..."@, None)],
    }
}

/// The menu bar that a configuration describes.
pub open spec fn menu_spec(cfg: MenuConfig) -> Seq<SubmenuView> {
    let head: Seq<SubmenuView> = if cfg.app_menu {
        seq![app_submenu_spec()]
    } else {
        Seq::empty()
    };
    let tail: Seq<SubmenuView> = if cfg.help_menu {
        seq![help_submenu_spec()]
    } else {
        Seq::empty()
    };
    head + seq![
        file_submenu_spec(),
        edit_submenu_spec(),
        view_submenu_spec(),
        window_submenu_spec(),
    ] + tail
}

/// The application-identity submenu: About, Services, Hide, Quit.
pub fn app_submenu() -> (r: Submenu)
    ensures
        r@ == app_submenu_spec(),
{
    let mut m = Submenu::new("Lost Animator");
    m.push_predefined(PredefinedItem::About, "About Lost Animator");
    m.push_separator();
    m.push_predefined(PredefinedItem::Services, "Services");
    m.push_separator();
    m.push_predefined(PredefinedItem::Hide, "Hide Lost Animator");
    m.push_predefined(PredefinedItem::HideOthers, "Hide Others");
    m.push_predefined(PredefinedItem::ShowAll, "Show All");
    m.push_separator();
    m.push_predefined(PredefinedItem::Quit, "Quit Lost Animator");
    assert(m@.entries =~= app_submenu_spec().entries);
    m
}

/// The File submenu: New, Open, Save, Save As and Close.
pub fn file_submenu() -> (r: Submenu)
    ensures
        r@ == file_submenu_spec(),
{
    let mut m = Submenu::new("File");
    m.push_custom("new", "New", Some("CmdOrCtrl+N"));
    m.push_separator();
    m.push_custom("open", "Open...", Some("CmdOrCtrl+O"));
    m.push_separator();
    m.push_custom("save", "Save", Some("CmdOrCtrl+S"));
    m.push_custom("save_as", "Save As...", Some("CmdOrCtrl+Shift+S"));
    m.push_separator();
    m.push_predefined(PredefinedItem::CloseWindow, "Close");
    assert(m@.entries =~= file_submenu_spec().entries);
    m
}

/// The Edit submenu: Undo, Redo and the clipboard items.
pub fn edit_submenu() -> (r: Submenu)
    ensures
        r@ == edit_submenu_spec(),
{
    let mut m = Submenu::new("Edit");
    m.push_custom("undo", "Undo", Some("CmdOrCtrl+Z"));
    m.push_custom("redo", "Redo", Some("CmdOrCtrl+Shift+Z"));
    m.push_separator();
    m.push_predefined(PredefinedItem::Cut, "Cut");
    m.push_predefined(PredefinedItem::Copy, "Copy");
    m.push_predefined(PredefinedItem::Paste, "Paste");
    m.push_predefined(PredefinedItem::SelectAll, "Select All");
    assert(m@.entries =~= edit_submenu_spec().entries);
    m
}

/// The View submenu: full-screen toggle.
pub fn view_submenu() -> (r: Submenu)
    ensures
        r@ == view_submenu_spec(),
{
    let mut m = Submenu::new("View");
    m.push_predefined(PredefinedItem::Fullscreen, "Toggle Fullscreen");
    assert(m@.entries =~= view_submenu_spec().entries);
    m
}

/// The Window submenu: Minimize, Zoom and Close.
pub fn window_submenu() -> (r: Submenu)
    ensures
        r@ == window_submenu_spec(),
{
    let mut m = Submenu::new("Window");
    m.push_predefined(PredefinedItem::Minimize, "Minimize");
    m.push_predefined(PredefinedItem::Maximize, "Zoom");
    m.push_separator();
    m.push_predefined(PredefinedItem::CloseWindow, "Close");
    assert(m@.entries =~= window_submenu_spec().entries);
    m
}

/// The Help submenu: the update check.
pub fn help_submenu() -> (r: Submenu)
    ensures
        r@ == help_submenu_spec(),
{
    let mut m = Submenu::new("Help");
    m.push_custom("check_updates", "Check for Updates...", None);
    assert(m@.entries =~= help_submenu_spec().entries);
    m
}

/// Builds the menu bar for a configuration.
pub fn build_menu(cfg: MenuConfig) -> (r: MenuTree)
    ensures
        r@ == menu_spec(cfg),
{
    let mut submenus: Vec<Submenu> = Vec::new();
    if cfg.app_menu {
        submenus.push(app_submenu());
    }
    submenus.push(file_submenu());
    submenus.push(edit_submenu());
    submenus.push(view_submenu());
    submenus.push(window_submenu());
    if cfg.help_menu {
        submenus.push(help_submenu());
    }
    let r = MenuTree { submenus };
    assert(r@ =~= menu_spec(cfg));
    r
}

/// Building the menu bar twice from one configuration gives structurally
/// identical trees: same titles, identifiers, labels, accelerators and order.
pub proof fn lemma_build_menu_is_idempotent(cfg: MenuConfig, first: MenuTree, second: MenuTree)
    requires
        first@ == menu_spec(cfg),
        second@ == menu_spec(cfg),
    ensures
        first@ == second@,
{
}

} // verus!
