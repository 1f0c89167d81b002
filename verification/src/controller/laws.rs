//! Laws of the controller: what holds of every key press.

use crate::controller::keys::{char_key_handled, key_handled, panel_key_handled};
use crate::controller::{AppModel, CatalogModel, CommandModel, InputOwner, Key};
use crate::focus::TableCreationStep;
use vstd::prelude::*;

verus! {

/// One if the flag is set, else none.
pub open spec fn counted(flag: bool) -> nat {
    if flag {
        1
    } else {
        0
    }
}

impl AppModel {
    /// The number of modals that are open: the file browser, the three
    /// inputs for a name, the filter input, the delete confirmation and
    /// the input for the name of a new table.
    pub open spec fn open_modals(self) -> nat {
        counted(self.show_file_browser) + counted(self.state.is_entering_database_name)
            + counted(self.state.is_entering_save_filename) + counted(
            self.state.is_entering_view_name,
        ) + counted(self.state.is_searching) + counted(
            !(self.state.delete_confirmation is Inactive),
        ) + counted(
            self.state.is_creating_table && self.state.table_creation_step
                == TableCreationStep::EnteringTableName,
        )
    }
}

/// A key that goes to an open modal opens no other.
proof fn lemma_modal_key_opens_none(
    before: AppModel,
    catalog: CatalogModel,
    key: Key,
    after: AppModel,
    commands: Seq<CommandModel>,
)
    requires
        before.open_modals() <= 1,
        !(before.input_owner() is Panels),
        key_handled(before, catalog, key, after, commands),
    ensures
        after.open_modals() <= 1,
{
    match before.input_owner() {
        InputOwner::FileBrowser => {},
        InputOwner::DatabaseName => {},
        InputOwner::SaveFilename => {},
        InputOwner::ViewName => {},
        InputOwner::Search => {},
        InputOwner::DeleteConfirmation => {},
        InputOwner::TableName => {},
        InputOwner::Panels => {},
    }
}

/// A character that goes to the panels opens one modal at most.
proof fn lemma_panel_char_opens_one(
    before: AppModel,
    catalog: CatalogModel,
    c: char,
    after: AppModel,
    commands: Seq<CommandModel>,
)
    requires
        before.input_owner() is Panels,
        char_key_handled(before, catalog, c, after, commands),
    ensures
        after.open_modals() <= 1,
{
    assert(before.open_modals() == 0);
    if c == 'k' || c == 'j' {
    } else if c == 'h' || c == 'l' {
    } else if c == 'K' || c == 'J' || c == 'H' || c == 'L' {
    } else if c == '?' || c == 'm' || c == 'i' || c == 'o' {
    } else if c == 'n' || c == 's' || c == 'v' {
    } else if c == 'd' || c == 'D' || c == 'x' {
    } else if c == 'a' || c == 'A' || c == 'c' || c == 'f' || c == 'F' {
    } else if c == '1' || c == '2' || c == '3' {
    } else {
    }
}

/// A key that goes to the panels opens one modal at most.
proof fn lemma_panel_key_opens_one(
    before: AppModel,
    catalog: CatalogModel,
    key: Key,
    after: AppModel,
    commands: Seq<CommandModel>,
)
    requires
        before.input_owner() is Panels,
        panel_key_handled(before, catalog, key, after, commands),
    ensures
        after.open_modals() <= 1,
{
    assert(before.open_modals() == 0);
    match key {
        Key::Char(c) => lemma_panel_char_opens_one(before, catalog, c, after, commands),
        Key::Tab => {},
        Key::BackTab => {},
        Key::Esc => {},
        Key::Enter => {},
        Key::Up => {},
        Key::Down => {},
        Key::Left => {},
        Key::Right => {},
        _ => {},
    }
}

/// At most one modal is open at a time: where that holds before a key
/// press, it holds after it.
pub proof fn lemma_key_opens_one_modal_at_most(
    before: AppModel,
    catalog: CatalogModel,
    key: Key,
    after: AppModel,
    commands: Seq<CommandModel>,
)
    requires
        before.open_modals() <= 1,
        key_handled(before, catalog, key, after, commands),
    ensures
        after.open_modals() <= 1,
{
    if before.input_owner() is Panels {
        lemma_panel_key_opens_one(before, catalog, key, after, commands);
    } else {
        lemma_modal_key_opens_none(before, catalog, key, after, commands);
    }
}

/// An open modal owns the keyboard: while one is open, no key moves the
/// focus to another panel, moves the selection in the table or changes
/// sort chain and column order.
pub proof fn lemma_modal_owns_the_keys(
    before: AppModel,
    catalog: CatalogModel,
    key: Key,
    after: AppModel,
    commands: Seq<CommandModel>,
)
    requires
        !(before.input_owner() is Panels),
        key_handled(before, catalog, key, after, commands),
    ensures
        after.state.active_panel == before.state.active_panel,
        after.state.last_left_panel == before.state.last_left_panel,
        after.state.panel_flash_timer == before.state.panel_flash_timer,
        after.state.selected_row == before.state.selected_row,
        after.state.selected_column == before.state.selected_column,
        after.state.sort_columns == before.state.sort_columns,
        after.state.column_order == before.state.column_order,
        after.state.hidden_columns == before.state.hidden_columns,
        after.selected_db_index == before.selected_db_index,
        after.selected_table_index == before.selected_table_index,
{
}

} // verus!
