use vstd::prelude::*;

use crate::dispatch::{action_of_id, lemma_known_identifier_notifies, MenuAction};
use crate::menu::{menu_spec, EntryView, MenuConfig, SubmenuView};

verus! {

/// Whether position `(i, j)` of a menu bar holds an item of the application's own.
pub open spec fn is_custom_at(tree: Seq<SubmenuView>, i: int, j: int) -> bool {
    &&& 0 <= i < tree.len()
    &&& 0 <= j < tree[i].entries.len()
    &&& tree[i].entries[j] is Custom
}

/// The identifier of the custom item at position `(i, j)`.
pub open spec fn custom_id_at(tree: Seq<SubmenuView>, i: int, j: int) -> Seq<char> {
    tree[i].entries[j]->Custom_id
}

proof fn lemma_table_entries()
    ensures
        action_of_id("new"@) == Some(MenuAction::New),
        action_of_id("open"@) == Some(MenuAction::Open),
        action_of_id("save"@) == Some(MenuAction::Save),
        action_of_id("save_as"@) == Some(MenuAction::SaveAs),
        action_of_id("undo"@) == Some(MenuAction::Undo),
        action_of_id("redo"@) == Some(MenuAction::Redo),
        action_of_id("check_updates"@) == Some(MenuAction::CheckUpdates),
{
    lemma_known_identifier_notifies(MenuAction::New);
    lemma_known_identifier_notifies(MenuAction::Open);
    lemma_known_identifier_notifies(MenuAction::Save);
    lemma_known_identifier_notifies(MenuAction::SaveAs);
    lemma_known_identifier_notifies(MenuAction::Undo);
    lemma_known_identifier_notifies(MenuAction::Redo);
    lemma_known_identifier_notifies(MenuAction::CheckUpdates);
}

/// In every configuration, each custom item of the menu bar has an entry in the
/// dispatch table, and no two custom items share an identifier.
pub proof fn lemma_menu_matches_dispatch_table(cfg: MenuConfig)
    ensures
        forall|i: int, j: int|
            #[trigger] is_custom_at(menu_spec(cfg), i, j) ==> action_of_id(
                custom_id_at(menu_spec(cfg), i, j),
            ).is_some(),
        forall|i1: int, j1: int, i2: int, j2: int|
            #![trigger is_custom_at(menu_spec(cfg), i1, j1), is_custom_at(menu_spec(cfg), i2, j2)]
            is_custom_at(menu_spec(cfg), i1, j1) && is_custom_at(menu_spec(cfg), i2, j2)
                && custom_id_at(menu_spec(cfg), i1, j1) == custom_id_at(menu_spec(cfg), i2, j2)
                ==> i1 == i2 && j1 == j2,
{
    lemma_table_entries();
}

/// The full menu bar offers every action of the dispatch table.
pub proof fn lemma_full_menu_offers_every_action(a: MenuAction)
    ensures
        exists|i: int, j: int|
            #[trigger] is_custom_at(menu_spec(MenuConfig::full_spec()), i, j) && custom_id_at(
                menu_spec(MenuConfig::full_spec()),
                i,
                j,
            ) == a.spec_id(),
{
    let tree = menu_spec(MenuConfig::full_spec());
    let (i, j): (int, int) = match a {
        MenuAction::New => (1, 0),
        MenuAction::Open => (1, 2),
        MenuAction::Save => (1, 4),
        MenuAction::SaveAs => (1, 5),
        MenuAction::Undo => (2, 0),
        MenuAction::Redo => (2, 1),
        MenuAction::CheckUpdates => (5, 0),
    };
    assert(is_custom_at(tree, i, j) && custom_id_at(tree, i, j) == a.spec_id());
}

} // verus!
