//! Key presses. A modal that is open takes the key; else the key acts on
//! the panels.

use crate::controller::actions::{enter_handled, extreme_handled, Edge};
use crate::controller::inputs::{
    save_filename_key_handled, search_key_handled, table_name_key_handled,
    view_name_key_handled,
};
use crate::controller::moves::{
    fetch_begun, vim_down_handled, vim_left_handled, vim_right_handled, vim_up_handled,
};
use crate::controller::{
    no_commands, one_command, App, AppModel, Catalog, CatalogModel, Command, CommandModel,
    InputOwner, Key, Refresh,
};
use crate::focus::{panel_after, panel_before, AppState, InspectSection, NavigationPanel, TableCreationStep};
use crate::names::without_key;
use crate::notify::NotificationType;
use crate::sort::toggled_in_chain;
use crate::state::basics::notified;
use crate::state::focus::{focus_moved, left_panel_after};
use crate::state::inspect::inspect_reset;
use crate::state::{lemma_model_scalars, lemma_model_texts, ready_text, ApplicationState, StateModel};
use crate::strings::same_text;
use vstd::prelude::*;
use vstd::string::*;

verus! {

/// The keys in one line, as the help key shows them.
pub open spec fn help_text() -> Seq<char> {
    "Keys: Tab=Navigate | hjkl=Select | m=Reorder Mode | Enter=Confirm | i=Import/Inspect | o=Open | n=New | s=Save | d=Delete | ?=Help | q=Quit"@
}

/// The database that is always there and cannot be disconnected from.
pub open spec fn default_database() -> Seq<char> {
    "memory"@
}

impl StateModel {
    /// The state with the dropdown closed and its mark back on the current
    /// database.
    pub open spec fn dropdown_dismissed(self, current: usize) -> StateModel {
        StateModel {
            database_dropdown_expanded: false,
            dropdown_selected_index: current,
            ..self
        }
    }

    /// The state with the creation wizard open at its first step.
    pub open spec fn wizard_opened(self) -> StateModel {
        StateModel {
            is_creating_table: true,
            current_state: AppState::ImportWizard,
            new_table_name: Seq::empty(),
            table_creation_step: TableCreationStep::EnteringTableName,
            status_message: ready_text(),
            ..self
        }
    }

    /// The state with the selected column toggled in the sort chain.
    pub open spec fn sort_toggled(self, ascending: bool) -> StateModel {
        match self.selected_column {
            Some(column) => StateModel {
                sort_columns: toggled_in_chain(self.sort_columns, column, ascending),
                ..self
            },
            None => self,
        }
    }

    /// The state with the filter input open for the selected column: the
    /// input remembers the column's place in the display order, and the
    /// column is expanded at its place among the visible columns.
    pub open spec fn search_started(self) -> StateModel {
        match self.selected_column_index() {
            Some(i) => StateModel {
                is_searching: true,
                search_column: Some(i as usize),
                search_text: Seq::empty(),
                search_syntax_valid: true,
                search_debounce_timer: None,
                expanded_columns: match self.visible_index() {
                    Some(position) => self.expanded_columns.insert(position as usize),
                    None => self.expanded_columns,
                },
                ..self
            },
            None => self,
        }
    }
}

/// What Tab does: in inspect mode the other section becomes active; an
/// open dropdown closes; else the focus moves forward.
pub open spec fn tab_handled(before: AppModel, after: AppModel) -> bool {
    let s = before.state;
    &&& after == (AppModel { state: after.state, ..before })
    &&& if s.inspect_mode {
        after.state == (StateModel {
            inspect_active_section: match s.inspect_active_section {
                InspectSection::Schema => InspectSection::Statistics,
                InspectSection::Statistics => InspectSection::Schema,
            },
            ..s
        })
    } else if s.database_dropdown_expanded {
        after.state == s.dropdown_dismissed(before.selected_db_index)
    } else {
        focus_moved(
            s,
            after.state,
            panel_after(s.active_panel, s.last_left_panel),
            left_panel_after(panel_after(s.active_panel, s.last_left_panel), s.last_left_panel),
        )
    }
}

/// What Esc does in the panels: it cancels the modify mode and fetches
/// the table anew, or leaves the inspect mode, or closes the dropdown.
pub open spec fn escape_handled(before: AppModel, after: AppModel, commands: Seq<CommandModel>) -> bool {
    let s = before.state;
    &&& after == (AppModel { state: after.state, ..before })
    &&& if s.is_modifying {
        fetch_begun(s.modification_cancelled(), Refresh::Layout, after.state, commands)
    } else if s.inspect_mode {
        after.state == inspect_reset(s, false) && commands.len() == 0
    } else if s.database_dropdown_expanded {
        after.state == s.dropdown_dismissed(before.selected_db_index) && commands.len() == 0
    } else {
        after.state == s && commands.len() == 0
    }
}

/// What `i` does: in the table list it opens the creation wizard, given a
/// current database; in the table viewer it enters the inspect mode,
/// given data.
pub open spec fn import_or_inspect_handled(
    before: AppModel,
    catalog: CatalogModel,
    after: AppModel,
) -> bool {
    let s = before.state;
    &&& after == (AppModel { state: after.state, ..before })
    &&& match s.active_panel {
        NavigationPanel::TableList => if catalog.current_database is Some {
            after.state == s.wizard_opened()
        } else {
            notified(
                s,
                after.state,
                NotificationType::Error,
                "Please connect to a database first"@,
            )
        },
        NavigationPanel::MainContent => after.state == if s.table_data is Some {
            inspect_reset(s, true)
        } else {
            s
        },
        _ => after.state == s,
    }
}

/// What `o` does: in modify mode it hides or shows the target column and
/// fetches the table anew; else it asks for the file browser.
pub open spec fn open_or_hide_handled(before: AppModel, after: AppModel, commands: Seq<CommandModel>) -> bool {
    let s = before.state;
    &&& after == (AppModel { state: after.state, ..before })
    &&& if s.is_modifying {
        fetch_begun(s.visibility_toggled(), Refresh::Layout, after.state, commands)
    } else {
        after.state == s && commands == seq![CommandModel::OpenFileBrowser]
    }
}

/// What `s` does: it opens the input for the file to save to, given a
/// current database.
pub open spec fn save_handled(before: AppModel, catalog: CatalogModel, after: AppModel) -> bool {
    let s = before.state;
    &&& after == (AppModel { state: after.state, ..before })
    &&& if catalog.current_database is Some {
        after.state == (StateModel {
            is_entering_save_filename: true,
            save_filename: Seq::empty(),
            ..s
        })
    } else {
        notified(s, after.state, NotificationType::Error, "No database selected to save"@)
    }
}

/// What `v` does: it opens the input for the name of a view, given a
/// selected table with data in the table viewer or in the inspect mode.
pub open spec fn view_handled(before: AppModel, after: AppModel) -> bool {
    let s = before.state;
    &&& after == (AppModel { state: after.state, ..before })
    &&& if (s.active_panel == NavigationPanel::MainContent || s.inspect_mode) && s.table_data
        is Some && s.selected_table is Some {
        after.state == (StateModel {
            is_entering_view_name: true,
            new_view_name: Seq::empty(),
            ..s
        })
    } else {
        notified(
            s,
            after.state,
            NotificationType::Error,
            "No table selected to create view from"@,
        )
    }
}

/// What `x` does: it asks for the current database to be disconnected,
/// unless that is the default one, and puts the marks of the two lists
/// back.
pub open spec fn disconnect_handled(
    before: AppModel,
    catalog: CatalogModel,
    after: AppModel,
    commands: Seq<CommandModel>,
) -> bool {
    match catalog.current_database {
        Some(name) => {
            &&& after == (AppModel {
                selected_db_index: before.synced_db_index(catalog),
                selected_table_index: 0,
                ..before
            })
            &&& commands == if name == default_database() {
                Seq::<CommandModel>::empty()
            } else {
                seq![CommandModel::Disconnect { name }]
            }
        },
        None => after == before && commands.len() == 0,
    }
}

/// What the keys of the table viewer do: `a` and `A` toggle the selected
/// column in the sort chain, `c` clears sort and filters, `F` takes the
/// filter off the selected column, each followed by a fetch of the rows;
/// `f` opens the filter input. Without data in the table viewer they do
/// nothing.
pub open spec fn table_key_handled(
    before: AppModel,
    c: char,
    after: AppModel,
    commands: Seq<CommandModel>,
) -> bool {
    let s = before.state;
    &&& after == (AppModel { state: after.state, ..before })
    &&& if !s.views_table() {
        after.state == s && commands.len() == 0
    } else if c == 'a' {
        fetch_begun(s.sort_toggled(true), Refresh::Rows { limit: true }, after.state, commands)
    } else if c == 'A' {
        fetch_begun(s.sort_toggled(false), Refresh::Rows { limit: true }, after.state, commands)
    } else if c == 'c' {
        fetch_begun(
            s.sort_and_filters_cleared(),
            Refresh::Rows { limit: true },
            after.state,
            commands,
        )
    } else if c == 'f' {
        after.state == s.search_started() && commands.len() == 0
    } else if c == 'F' {
        match s.selected_column {
            Some(column) => fetch_begun(
                StateModel { column_filters: without_key(s.column_filters, column), ..s },
                Refresh::Rows { limit: false },
                after.state,
                commands,
            ),
            None => after.state == s && commands.len() == 0,
        }
    } else {
        after.state == s && commands.len() == 0
    }
}

/// What a character does in the panels.
pub open spec fn char_key_handled(
    before: AppModel,
    catalog: CatalogModel,
    c: char,
    after: AppModel,
    commands: Seq<CommandModel>,
) -> bool {
    let s = before.state;
    let quiet = commands.len() == 0;
    let framed = after == (AppModel { state: after.state, ..before });
    if c == 'k' {
        vim_up_handled(before, catalog, after, commands)
    } else if c == 'j' {
        vim_down_handled(before, catalog, after, commands)
    } else if c == 'h' {
        vim_left_handled(before, after, commands)
    } else if c == 'l' {
        vim_right_handled(before, after, commands)
    } else if c == 'K' {
        extreme_handled(before, Edge::Top, after, commands)
    } else if c == 'J' {
        extreme_handled(before, Edge::Bottom, after, commands)
    } else if c == 'H' {
        extreme_handled(before, Edge::Left, after, commands)
    } else if c == 'L' {
        extreme_handled(before, Edge::Right, after, commands)
    } else if c == '?' {
        quiet && framed && notified(s, after.state, NotificationType::Info, help_text())
    } else if c == 'm' {
        quiet && after == (AppModel {
            state: if s.can_start_modifying() {
                StateModel {
                    is_modifying: true,
                    modify_backup_column_order: Some(s.virtual_order()),
                    ..s
                }
            } else {
                s
            },
            ..before
        })
    } else if c == 'i' {
        quiet && import_or_inspect_handled(before, catalog, after)
    } else if c == 'o' {
        open_or_hide_handled(before, after, commands)
    } else if c == 'n' {
        quiet && after == (AppModel {
            state: StateModel {
                is_entering_database_name: true,
                new_database_name: Seq::empty(),
                ..s
            },
            ..before
        })
    } else if c == 's' {
        quiet && save_handled(before, catalog, after)
    } else if c == 'v' {
        quiet && view_handled(before, after)
    } else if c == 'd' {
        quiet && after == (AppModel {
            state: before.delete_confirmation_started(catalog),
            ..before
        })
    } else if c == 'D' {
        after == before && commands == before.immediate_delete_commands(catalog)
    } else if c == 'x' {
        disconnect_handled(before, catalog, after, commands)
    } else if c == 'a' || c == 'A' || c == 'c' || c == 'f' || c == 'F' {
        table_key_handled(before, c, after, commands)
    } else if c == '1' {
        quiet && framed && focus_moved(
            s,
            after.state,
            NavigationPanel::DatabaseList,
            NavigationPanel::DatabaseList,
        )
    } else if c == '2' {
        quiet && framed && focus_moved(
            s,
            after.state,
            NavigationPanel::TableList,
            NavigationPanel::TableList,
        )
    } else if c == '3' {
        quiet && framed && focus_moved(
            s,
            after.state,
            NavigationPanel::MainContent,
            s.last_left_panel,
        )
    } else {
        quiet && after == before
    }
}

/// What a key does in the panels.
pub open spec fn panel_key_handled(
    before: AppModel,
    catalog: CatalogModel,
    key: Key,
    after: AppModel,
    commands: Seq<CommandModel>,
) -> bool {
    let s = before.state;
    match key {
        Key::Tab => commands.len() == 0 && tab_handled(before, after),
        Key::BackTab => commands.len() == 0 && after == (AppModel {
            state: after.state,
            ..before
        }) && focus_moved(s, after.state, panel_before(s.active_panel), s.last_left_panel),
        Key::Esc => escape_handled(before, after, commands),
        Key::Up => vim_up_handled(before, catalog, after, commands),
        Key::Down => vim_down_handled(before, catalog, after, commands),
        Key::Left => vim_left_handled(before, after, commands),
        Key::Right => vim_right_handled(before, after, commands),
        Key::Enter => enter_handled(before, catalog, after, commands),
        Key::Char(c) => char_key_handled(before, catalog, c, after, commands),
        _ => commands.len() == 0 && after == before,
    }
}

/// What a key does in the file browser: Esc closes it, every other key is
/// handed on to it.
pub open spec fn browser_key_handled(
    before: AppModel,
    key: Key,
    after: AppModel,
    commands: Seq<CommandModel>,
) -> bool {
    if key == Key::Esc {
        after == (AppModel { show_file_browser: false, ..before }) && commands == seq![
            CommandModel::CloseFileBrowser,
        ]
    } else {
        after == before && commands == seq![CommandModel::BrowserKey(key)]
    }
}

/// What a key does: it goes to the owner of the keyboard.
pub open spec fn key_handled(
    before: AppModel,
    catalog: CatalogModel,
    key: Key,
    after: AppModel,
    commands: Seq<CommandModel>,
) -> bool {
    let framed = after == (AppModel { state: after.state, ..before });
    match before.input_owner() {
        InputOwner::FileBrowser => browser_key_handled(before, key, after, commands),
        InputOwner::DatabaseName => after == (AppModel {
            state: before.state.database_name_keyed(key),
            ..before
        }) && commands == before.state.database_name_commands(key),
        InputOwner::SaveFilename => framed && save_filename_key_handled(
            before.state,
            catalog,
            key,
            after.state,
            commands,
        ),
        InputOwner::ViewName => framed && view_name_key_handled(
            before.state,
            catalog,
            key,
            after.state,
            commands,
        ),
        InputOwner::Search => framed && search_key_handled(
            before.state,
            key,
            after.state,
            commands,
        ),
        InputOwner::DeleteConfirmation => after == (AppModel {
            state: before.state.delete_confirmation_keyed(key),
            ..before
        }) && commands == before.state.delete_confirmation_commands(key),
        InputOwner::TableName => framed && table_name_key_handled(
            before.state,
            key,
            after.state,
            commands,
        ),
        InputOwner::Panels => panel_key_handled(before, catalog, key, after, commands),
    }
}

impl ApplicationState {
    /// Closes the dropdown and puts its mark back on the current database.
    pub fn dismiss_dropdown(&mut self, current: usize)
        ensures
            final(self)@ == old(self)@.dropdown_dismissed(current),
            old(self)@.well_formed() ==> final(self)@.well_formed(),
    {
        self.collapse_database_dropdown();
        self.set_dropdown_to_current_database(current);
    }

    /// Opens the filter input for the selected column.
    pub fn start_search_on_selected(&mut self)
        ensures
            final(self)@ == old(self)@.search_started(),
            old(self)@.well_formed() ==> final(self)@.well_formed(),
    {
        if let Some(index) = self.get_selected_column_index() {
            proof {
                self@.virtual_order().index_of_first_ensures(self@.selected_column->0);
            }
            self.start_column_search(index);
        }
    }

    /// Takes the filter off the selected column. Says whether a column is
    /// selected.
    pub fn clear_filter_on_selected(&mut self) -> (selected: bool)
        ensures
            selected == (old(self)@.selected_column is Some),
            final(self)@ == match old(self)@.selected_column {
                Some(column) => StateModel {
                    column_filters: without_key(old(self)@.column_filters, column),
                    ..old(self)@
                },
                None => old(self)@,
            },
            old(self)@.well_formed() ==> final(self)@.well_formed(),
    {
        proof {
            lemma_model_texts(self);
        }
        let column = match &self.selected_column {
            Some(name) => Some(name.clone()),
            None => None,
        };
        match column {
            Some(name) => {
                self.clear_column_filter(name.as_str());
                true
            },
            None => false,
        }
    }

    /// Whether a view can be made: the table viewer or the inspect mode is
    /// up, with a selected table and data.
    pub fn can_create_view(&self) -> (can: bool)
        ensures
            can == ((self@.active_panel == NavigationPanel::MainContent || self@.inspect_mode)
                && self@.table_data is Some && self@.selected_table is Some),
    {
        proof {
            lemma_model_scalars(self);
            lemma_model_texts(self);
        }
        (self.active_panel == NavigationPanel::MainContent || self.inspect_mode)
            && self.table_data.is_some() && self.selected_table.is_some()
    }

    /// Enters the inspect mode where the table has data.
    pub fn inspect_if_data(&mut self)
        ensures
            final(self)@ == if old(self)@.table_data is Some {
                inspect_reset(old(self)@, true)
            } else {
                old(self)@
            },
            old(self)@.well_formed() ==> final(self)@.well_formed(),
    {
        proof {
            lemma_model_texts(self);
        }
        if self.table_data.is_some() {
            self.enter_inspect_mode();
        }
    }
}

impl App {
    /// Handles Tab in the panels.
    pub fn handle_tab(&mut self)
        ensures
            tab_handled(old(self)@, final(self)@),
            old(self)@.state.well_formed() ==> final(self)@.state.well_formed(),
    {
        proof {
            lemma_model_scalars(&self.state);
        }
        if self.state.inspect_mode {
            self.state.inspect_cycle_section();
        } else if self.state.database_dropdown_expanded {
            self.state.dismiss_dropdown(self.selected_db_index);
        } else {
            self.state.next_panel();
        }
    }

    /// Handles Esc in the panels.
    pub fn handle_escape(&mut self) -> (commands: Vec<Command>)
        ensures
            escape_handled(old(self)@, final(self)@, commands.deep_view()),
            old(self)@.state.well_formed() ==> final(self)@.state.well_formed(),
    {
        proof {
            lemma_model_scalars(&self.state);
        }
        if self.state.is_modifying {
            self.state.cancel_modifying();
            return self.begin_fetch(Refresh::Layout);
        }
        if self.state.inspect_mode {
            self.state.exit_inspect_mode();
        } else if self.state.database_dropdown_expanded {
            self.state.dismiss_dropdown(self.selected_db_index);
        }
        no_commands()
    }

    /// Opens the creation wizard, given a current database.
    pub fn start_table_creation(&mut self, catalog: &Catalog)
        ensures
            final(self)@ == (AppModel { state: final(self)@.state, ..old(self)@ }),
            if catalog.deep_view().current_database is Some {
                final(self)@.state == old(self)@.state.wizard_opened()
            } else {
                notified(
                    old(self)@.state,
                    final(self)@.state,
                    NotificationType::Error,
                    "Please connect to a database first"@,
                )
            },
            old(self)@.state.well_formed() ==> final(self)@.state.well_formed(),
    {
        if catalog.current_database.is_some() {
            self.state.start_table_creation();
        } else {
            self.state.show_error("Please connect to a database first".to_owned());
        }
    }

    /// Handles `i`.
    pub fn handle_import_or_inspect(&mut self, catalog: &Catalog)
        ensures
            import_or_inspect_handled(old(self)@, catalog.deep_view(), final(self)@),
            old(self)@.state.well_formed() ==> final(self)@.state.well_formed(),
    {
        proof {
            lemma_model_scalars(&self.state);
        }
        match self.state.active_panel {
            NavigationPanel::TableList => self.start_table_creation(catalog),
            NavigationPanel::MainContent => self.state.inspect_if_data(),
            _ => {},
        }
    }

    /// Handles `o`.
    pub fn handle_open_or_hide(&mut self) -> (commands: Vec<Command>)
        ensures
            open_or_hide_handled(old(self)@, final(self)@, commands.deep_view()),
            old(self)@.state.well_formed() ==> final(self)@.state.well_formed(),
    {
        proof {
            lemma_model_scalars(&self.state);
        }
        if self.state.is_modifying {
            self.state.toggle_column_visibility();
            self.begin_fetch(Refresh::Layout)
        } else {
            one_command(Command::OpenFileBrowser)
        }
    }

    /// Handles `s`.
    pub fn handle_save(&mut self, catalog: &Catalog)
        ensures
            save_handled(old(self)@, catalog.deep_view(), final(self)@),
            old(self)@.state.well_formed() ==> final(self)@.state.well_formed(),
    {
        if catalog.current_database.is_some() {
            self.state.start_save_filename_input();
        } else {
            self.state.show_error("No database selected to save".to_owned());
        }
    }

    /// Handles `v`.
    pub fn handle_view(&mut self)
        ensures
            view_handled(old(self)@, final(self)@),
            old(self)@.state.well_formed() ==> final(self)@.state.well_formed(),
    {
        if self.state.can_create_view() {
            self.state.start_view_name_input();
        } else {
            self.state.show_error("No table selected to create view from".to_owned());
        }
    }

    /// Handles `x`.
    pub fn handle_disconnect(&mut self, catalog: &Catalog) -> (commands: Vec<Command>)
        ensures
            disconnect_handled(old(self)@, catalog.deep_view(), final(self)@, commands.deep_view()),
            old(self)@.state.well_formed() ==> final(self)@.state.well_formed(),
    {
        match &catalog.current_database {
            Some(name) => {
                let commands = if same_text(name.as_str(), "memory") {
                    no_commands()
                } else {
                    one_command(Command::Disconnect { name: name.clone() })
                };
                self.sync_selected_db_index(catalog);
                self.selected_table_index = 0;
                commands
            },
            None => no_commands(),
        }
    }

    /// Shows the keys.
    pub fn show_help(&mut self)
        ensures
            final(self)@ == (AppModel { state: final(self)@.state, ..old(self)@ }),
            notified(old(self)@.state, final(self)@.state, NotificationType::Info, help_text()),
            old(self)@.state.well_formed() ==> final(self)@.state.well_formed(),
    {
        self.state.show_info(
            "Keys: Tab=Navigate | hjkl=Select | m=Reorder Mode | Enter=Confirm | i=Import/Inspect | o=Open | n=New | s=Save | d=Delete | ?=Help | q=Quit".to_owned(),
        );
    }

    /// Handles the sort keys of the table viewer.
    fn handle_sort_key(&mut self, c: char) -> (commands: Vec<Command>)
        requires
            c == 'a' || c == 'A' || c == 'c',
            old(self)@.state.views_table(),
        ensures
            table_key_handled(old(self)@, c, final(self)@, commands.deep_view()),
            old(self)@.state.well_formed() ==> final(self)@.state.well_formed(),
    {
        if c == 'a' {
            self.state.toggle_in_sort_chain(true);
        } else if c == 'A' {
            self.state.toggle_in_sort_chain(false);
        } else {
            self.state.clear_sort();
        }
        self.begin_fetch(Refresh::Rows { limit: true })
    }

    /// Handles the filter keys of the table viewer.
    fn handle_filter_key(&mut self, c: char) -> (commands: Vec<Command>)
        requires
            c == 'f' || c == 'F',
            old(self)@.state.views_table(),
        ensures
            table_key_handled(old(self)@, c, final(self)@, commands.deep_view()),
            old(self)@.state.well_formed() ==> final(self)@.state.well_formed(),
    {
        if c == 'f' {
            self.state.start_search_on_selected();
            no_commands()
        } else if self.state.clear_filter_on_selected() {
            self.begin_fetch(Refresh::Rows { limit: false })
        } else {
            no_commands()
        }
    }

    /// Handles the keys of the table viewer. Any other character does
    /// nothing.
    pub fn handle_table_key(&mut self, c: char) -> (commands: Vec<Command>)
        ensures
            table_key_handled(old(self)@, c, final(self)@, commands.deep_view()),
            old(self)@.state.well_formed() ==> final(self)@.state.well_formed(),
    {
        if !self.state.views_table() {
            no_commands()
        } else if c == 'f' || c == 'F' {
            self.handle_filter_key(c)
        } else if c == 'a' || c == 'A' || c == 'c' {
            self.handle_sort_key(c)
        } else {
            no_commands()
        }
    }

    /// Handles the characters that move.
    fn handle_move_char(&mut self, c: char, catalog: &Catalog) -> (commands: Vec<Command>)
        requires
            c == 'k' || c == 'j' || c == 'h' || c == 'l' || c == 'K' || c == 'J' || c == 'H' || c
                == 'L',
        ensures
            char_key_handled(old(self)@, catalog.deep_view(), c, final(self)@, commands.deep_view()),
            old(self)@.state.well_formed() ==> final(self)@.state.well_formed(),
    {
        if c == 'k' {
            self.handle_vim_up(catalog)
        } else if c == 'j' {
            self.handle_vim_down(catalog)
        } else if c == 'h' {
            self.handle_vim_left()
        } else if c == 'l' {
            self.handle_vim_right()
        } else if c == 'K' {
            self.handle_extreme(Edge::Top)
        } else if c == 'J' {
            self.handle_extreme(Edge::Bottom)
        } else if c == 'H' {
            self.handle_extreme(Edge::Left)
        } else {
            self.handle_extreme(Edge::Right)
        }
    }

    /// Handles the characters that open something.
    fn handle_open_char(&mut self, c: char, catalog: &Catalog) -> (commands: Vec<Command>)
        requires
            c == '?' || c == 'm' || c == 'i' || c == 'o' || c == 'n' || c == 's' || c == 'v',
        ensures
            char_key_handled(old(self)@, catalog.deep_view(), c, final(self)@, commands.deep_view()),
            old(self)@.state.well_formed() ==> final(self)@.state.well_formed(),
    {
        if c == 'o' {
            return self.handle_open_or_hide();
        }
        if c == '?' {
            self.show_help();
        } else if c == 'm' {
            self.handle_modify_mode();
        } else if c == 'i' {
            self.handle_import_or_inspect(catalog);
        } else if c == 'n' {
            self.state.start_database_name_input();
        } else if c == 's' {
            self.handle_save(catalog);
        } else {
            self.handle_view();
        }
        no_commands()
    }

    /// Handles the characters that delete or disconnect.
    fn handle_close_char(&mut self, c: char, catalog: &Catalog) -> (commands: Vec<Command>)
        requires
            c == 'd' || c == 'D' || c == 'x',
        ensures
            char_key_handled(old(self)@, catalog.deep_view(), c, final(self)@, commands.deep_view()),
            old(self)@.state.well_formed() ==> final(self)@.state.well_formed(),
    {
        if c == 'd' {
            self.start_delete_confirmation(catalog);
            no_commands()
        } else if c == 'D' {
            self.immediate_delete(catalog)
        } else {
            self.handle_disconnect(catalog)
        }
    }

    /// Handles the digits, which put the focus on a panel.
    fn handle_panel_digit(&mut self, c: char, catalog: &Catalog) -> (commands: Vec<Command>)
        requires
            c == '1' || c == '2' || c == '3',
        ensures
            char_key_handled(old(self)@, catalog.deep_view(), c, final(self)@, commands.deep_view()),
            old(self)@.state.well_formed() ==> final(self)@.state.well_formed(),
    {
        if c == '1' {
            self.state.set_left_panel(NavigationPanel::DatabaseList);
        } else if c == '2' {
            self.state.set_left_panel(NavigationPanel::TableList);
        } else {
            self.state.set_active_panel(NavigationPanel::MainContent);
        }
        no_commands()
    }

    /// Handles a character in the panels.
    pub fn handle_char_key(&mut self, c: char, catalog: &Catalog) -> (commands: Vec<Command>)
        ensures
            char_key_handled(old(self)@, catalog.deep_view(), c, final(self)@, commands.deep_view()),
            old(self)@.state.well_formed() ==> final(self)@.state.well_formed(),
    {
        if c == 'k' || c == 'j' || c == 'h' || c == 'l' || c == 'K' || c == 'J' || c == 'H' || c
            == 'L' {
            self.handle_move_char(c, catalog)
        } else if c == '?' || c == 'm' || c == 'i' || c == 'o' || c == 'n' || c == 's' || c
            == 'v' {
            self.handle_open_char(c, catalog)
        } else if c == 'd' || c == 'D' || c == 'x' {
            self.handle_close_char(c, catalog)
        } else if c == 'a' || c == 'A' || c == 'c' || c == 'f' || c == 'F' {
            self.handle_table_key(c)
        } else if c == '1' || c == '2' || c == '3' {
            self.handle_panel_digit(c, catalog)
        } else {
            no_commands()
        }
    }

    /// Handles the arrow keys.
    fn handle_arrow(&mut self, key: Key, catalog: &Catalog) -> (commands: Vec<Command>)
        requires
            key == Key::Up || key == Key::Down || key == Key::Left || key == Key::Right,
        ensures
            panel_key_handled(
                old(self)@,
                catalog.deep_view(),
                key,
                final(self)@,
                commands.deep_view(),
            ),
            old(self)@.state.well_formed() ==> final(self)@.state.well_formed(),
    {
        match key {
            Key::Up => self.handle_vim_up(catalog),
            Key::Down => self.handle_vim_down(catalog),
            Key::Left => self.handle_vim_left(),
            _ => self.handle_vim_right(),
        }
    }

    /// Handles a key in the panels.
    pub fn handle_panel_key(&mut self, key: Key, catalog: &Catalog) -> (commands: Vec<Command>)
        ensures
            panel_key_handled(
                old(self)@,
                catalog.deep_view(),
                key,
                final(self)@,
                commands.deep_view(),
            ),
            old(self)@.state.well_formed() ==> final(self)@.state.well_formed(),
    {
        match key {
            Key::Tab => {
                self.handle_tab();
                no_commands()
            },
            Key::BackTab => {
                self.state.prev_panel();
                no_commands()
            },
            Key::Esc => self.handle_escape(),
            Key::Enter => self.handle_enter(catalog),
            Key::Char(c) => self.handle_char_key(c, catalog),
            Key::Up | Key::Down | Key::Left | Key::Right => self.handle_arrow(key, catalog),
            _ => no_commands(),
        }
    }

    /// Handles a key in the file browser.
    pub fn handle_browser_key(&mut self, key: Key) -> (commands: Vec<Command>)
        ensures
            browser_key_handled(old(self)@, key, final(self)@, commands.deep_view()),
            old(self)@.state.well_formed() ==> final(self)@.state.well_formed(),
    {
        match key {
            Key::Esc => {
                self.show_file_browser = false;
                one_command(Command::CloseFileBrowser)
            },
            _ => one_command(Command::BrowserKey(key)),
        }
    }

    /// Handles a key press: the key goes to the modal that is open, or to
    /// the panels where none is. The commands that come back are for the
    /// outside to carry out, in their order.
    pub fn handle_key(&mut self, key: Key, catalog: &Catalog) -> (commands: Vec<Command>)
        ensures
            key_handled(old(self)@, catalog.deep_view(), key, final(self)@, commands.deep_view()),
            old(self)@.state.well_formed() ==> final(self)@.state.well_formed(),
    {
        proof {
            lemma_model_scalars(&self.state);
        }
        match self.input_owner() {
            InputOwner::FileBrowser => self.handle_browser_key(key),
            InputOwner::DatabaseName => self.handle_database_name_key(key),
            InputOwner::SaveFilename => self.handle_save_filename_key(key, catalog),
            InputOwner::ViewName => self.handle_view_name_key(key, catalog),
            InputOwner::Search => self.handle_search_key(key),
            InputOwner::DeleteConfirmation => self.handle_delete_confirmation_key(key),
            InputOwner::TableName => self.handle_table_name_key(key),
            InputOwner::Panels => self.handle_panel_key(key, catalog),
        }
    }
}

} // verus!
