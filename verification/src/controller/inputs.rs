//! The modal inputs. While one is open, every key goes to it.

use crate::controller::{
    no_commands, one_command, App, AppModel, Catalog, CatalogModel, Command, CommandModel, Key,
    Refresh,
};
use crate::focus::{DeleteConfirmationModel, DeleteConfirmationState, TableCreationStep};
use crate::notify::NotificationType;
use crate::state::basics::{notified, wizard_closed, without_last};
use crate::state::filters::{search_can_commit, search_closed};
use crate::state::{lemma_model_scalars, lemma_model_texts, ready_text, StateModel};
use crate::strings::{ends_with, has_suffix, is_blank, trim_text, trimmed};
use vstd::prelude::*;
use vstd::string::*;

verus! {

/// What a key makes of the text in an input: a character more, the last
/// character less, or the same text.
pub open spec fn text_keyed(text: Seq<char>, key: Key) -> Seq<char> {
    match key {
        Key::Char(c) => text.push(c),
        Key::Backspace => without_last(text),
        _ => text,
    }
}

/// The file to save a database to: the name as typed where it ends in
/// `.db` or `.duckdb`, else the name with `.db` behind it.
pub open spec fn database_file_name(typed: Seq<char>) -> Seq<char> {
    if has_suffix(typed, ".db"@) || has_suffix(typed, ".duckdb"@) {
        typed
    } else {
        typed + ".db"@
    }
}

/// The statement that creates the view `view_name` from `query`.
pub open spec fn create_view_statement(view_name: Seq<char>, query: Seq<char>) -> Seq<char> {
    "CREATE VIEW "@ + view_name + " AS "@ + query
}

impl StateModel {
    /// Whether the creation wizard waits for the name of the table.
    pub open spec fn awaits_table_name(self) -> bool {
        self.is_creating_table && self.table_creation_step
            == TableCreationStep::EnteringTableName
    }

    /// The state with the input for a database name closed.
    pub open spec fn database_name_closed(self) -> StateModel {
        StateModel { is_entering_database_name: false, new_database_name: Seq::empty(), ..self }
    }

    /// The state with the input for a file name closed.
    pub open spec fn save_filename_closed(self) -> StateModel {
        StateModel { is_entering_save_filename: false, save_filename: Seq::empty(), ..self }
    }

    /// The state with the input for a view name closed.
    pub open spec fn view_name_closed(self) -> StateModel {
        StateModel { is_entering_view_name: false, new_view_name: Seq::empty(), ..self }
    }

    /// The state after a key in the input for a database name.
    pub open spec fn database_name_keyed(self, key: Key) -> StateModel {
        match key {
            Key::Esc => self.database_name_closed(),
            Key::Enter => if trimmed(self.new_database_name).len() > 0 {
                self.database_name_closed()
            } else {
                self
            },
            _ => StateModel {
                new_database_name: text_keyed(self.new_database_name, key),
                ..self
            },
        }
    }

    /// The commands after a key in the input for a database name.
    pub open spec fn database_name_commands(self, key: Key) -> Seq<CommandModel> {
        if key == Key::Enter && trimmed(self.new_database_name).len() > 0 {
            seq![CommandModel::CreateDatabase { name: self.new_database_name }]
        } else {
            Seq::empty()
        }
    }

    /// The commands after a key in the delete confirmation: `d` deletes
    /// what the confirmation names.
    pub open spec fn delete_confirmation_commands(self, key: Key) -> Seq<CommandModel> {
        if key == Key::Char('d') {
            match self.delete_confirmation {
                DeleteConfirmationModel::Database(name) => seq![
                    CommandModel::DeleteDatabase { name },
                ],
                DeleteConfirmationModel::Table(name) => seq![CommandModel::DeleteTable { name }],
                DeleteConfirmationModel::Inactive => Seq::empty(),
            }
        } else {
            Seq::empty()
        }
    }

    /// The state after a key in the delete confirmation: `d` and Esc close
    /// it.
    pub open spec fn delete_confirmation_keyed(self, key: Key) -> StateModel {
        if key == Key::Esc || key == Key::Char('d') {
            StateModel { delete_confirmation: DeleteConfirmationModel::Inactive, ..self }
        } else {
            self
        }
    }
}

/// What a key does in the input for a file name. Enter on a name that is
/// not blank asks for the current database to be saved, or says that there
/// is none, and closes the input.
pub open spec fn save_filename_key_handled(
    before: StateModel,
    catalog: CatalogModel,
    key: Key,
    after: StateModel,
    commands: Seq<CommandModel>,
) -> bool {
    match key {
        Key::Esc => after == before.save_filename_closed() && commands.len() == 0,
        Key::Enter => if trimmed(before.save_filename).len() > 0 {
            match catalog.current_database {
                Some(database) => after == before.save_filename_closed() && commands == seq![
                    CommandModel::SaveDatabase {
                        database,
                        file_path: database_file_name(before.save_filename),
                    },
                ],
                None => commands.len() == 0 && notified(
                    before.save_filename_closed(),
                    after,
                    NotificationType::Error,
                    "No database selected to save"@,
                ),
            }
        } else {
            after == before && commands.len() == 0
        },
        _ => after == (StateModel {
            save_filename: text_keyed(before.save_filename, key),
            ..before
        }) && commands.len() == 0,
    }
}

/// What becomes of a request for a view.
pub ghost enum ViewRequest {
    /// The view is asked for.
    Create { view_name: Seq<char>, sql: Seq<char> },
    /// The request is turned down, with these words.
    Refused { message: Seq<char> },
}

/// What becomes of a request for a view over what the table shows: it is
/// asked for under the name in the input, trimmed, unless no connection is
/// open, no table is selected or the table shows no column.
pub open spec fn view_request(state: StateModel, catalog: CatalogModel) -> ViewRequest {
    if catalog.connected && state.selected_table is Some {
        match state.view_sql(state.selected_table->0) {
            Some(query) => ViewRequest::Create {
                view_name: trimmed(state.new_view_name),
                sql: create_view_statement(trimmed(state.new_view_name), query),
            },
            None => ViewRequest::Refused {
                message: "Failed to generate SQL for current view state"@,
            },
        }
    } else {
        ViewRequest::Refused { message: "No database connection or table selected"@ }
    }
}

/// A request for a view made in the state `asked` has been dealt with:
/// either the command went out and the state is `base`, or `after` is
/// `base` with the refusal notified.
pub open spec fn view_requested(
    asked: StateModel,
    catalog: CatalogModel,
    base: StateModel,
    after: StateModel,
    commands: Seq<CommandModel>,
) -> bool {
    match view_request(asked, catalog) {
        ViewRequest::Create { view_name, sql } => after == base && commands == seq![
            CommandModel::CreateView { view_name, sql },
        ],
        ViewRequest::Refused { message } => commands.len() == 0 && notified(
            base,
            after,
            NotificationType::Error,
            message,
        ),
    }
}

/// What a key does in the input for a view name. Enter on a name that is
/// not blank asks for the view and closes the input.
pub open spec fn view_name_key_handled(
    before: StateModel,
    catalog: CatalogModel,
    key: Key,
    after: StateModel,
    commands: Seq<CommandModel>,
) -> bool {
    match key {
        Key::Esc => after == before.view_name_closed() && commands.len() == 0,
        Key::Enter => if trimmed(before.new_view_name).len() > 0 {
            view_requested(before, catalog, before.view_name_closed(), after, commands)
        } else {
            after == before && commands.len() == 0
        },
        _ => after == (StateModel {
            new_view_name: text_keyed(before.new_view_name, key),
            ..before
        }) && commands.len() == 0,
    }
}

/// What a key does in the input for the name of a new table. Enter on a
/// name that is not blank goes on to the choice of a file.
pub open spec fn table_name_key_handled(
    before: StateModel,
    key: Key,
    after: StateModel,
    commands: Seq<CommandModel>,
) -> bool {
    match key {
        Key::Esc => commands.len() == 0 && notified(
            wizard_closed(before),
            after,
            NotificationType::Info,
            "Table creation cancelled"@,
        ),
        Key::Enter => if trimmed(before.new_table_name).len() > 0 {
            after == (StateModel {
                table_creation_step: TableCreationStep::SelectingFile,
                status_message: ready_text(),
                ..before
            }) && commands == seq![CommandModel::OpenFileBrowser]
        } else {
            after == before && commands.len() == 0
        },
        Key::Backspace => after == (if before.awaits_table_name() {
            StateModel { new_table_name: without_last(before.new_table_name), ..before }
        } else {
            before
        }) && commands.len() == 0,
        Key::Char(c) => after == (if before.awaits_table_name() {
            StateModel { new_table_name: before.new_table_name.push(c), ..before }
        } else {
            before
        }) && commands.len() == 0,
        _ => after == before && commands.len() == 0,
    }
}

/// What a key does in the filter input. Enter commits a filter that can
/// be committed and fetches the rows anew, without a cap; a changed text
/// restarts the wait for a pause and is checked with the engine.
pub open spec fn search_key_handled(
    before: StateModel,
    key: Key,
    after: StateModel,
    commands: Seq<CommandModel>,
) -> bool {
    match key {
        Key::Esc => after == search_closed(before) && commands.len() == 0,
        Key::Enter => if search_can_commit(before) {
            let committed = search_closed(
                StateModel {
                    column_filters: crate::names::with_entry(
                        before.column_filters,
                        before.virtual_order()[before.search_column->0 as int],
                        trimmed(before.search_text),
                    ),
                    ..before
                },
            );
            match (committed.selected_database, committed.selected_table) {
                (Some(_), Some(table)) => after == committed && commands == seq![
                    CommandModel::LoadColumns { table, purpose: Refresh::Rows { limit: false } },
                ],
                _ => commands.len() == 0 && notified(
                    committed,
                    after,
                    NotificationType::Error,
                    "No table selected for data loading"@,
                ),
            }
        } else {
            after == before && commands.len() == 0
        },
        Key::Char(_) | Key::Backspace => if !before.is_searching {
            after == before && commands.len() == 0
        } else {
            let text = text_keyed(before.search_text, key);
            &&& after.search_debounce_timer is Some
            &&& after == (StateModel {
                search_text: text,
                search_debounce_timer: after.search_debounce_timer,
                search_syntax_valid: if trimmed(text).len() == 0 {
                    true
                } else {
                    before.search_syntax_valid
                },
                ..before
            })
            &&& commands == match after.filter_check() {
                Some(sql) => seq![CommandModel::CheckFilter { sql }],
                None => Seq::<CommandModel>::empty(),
            }
        },
        _ => after == before && commands.len() == 0,
    }
}

/// The file to save a database to.
pub fn file_name_for_database(typed: &str) -> (file_path: String)
    ensures
        file_path@ == database_file_name(typed@),
{
    let mut file_path = typed.to_owned();
    if !(ends_with(typed, ".db") || ends_with(typed, ".duckdb")) {
        file_path.append(".db");
    }
    file_path
}

impl App {
    /// Handles a key in the input for the name of a new database. Enter
    /// on a name that is not blank asks for the database and closes the
    /// input.
    pub fn handle_database_name_key(&mut self, key: Key) -> (commands: Vec<Command>)
        ensures
            final(self)@ == (AppModel {
                state: old(self)@.state.database_name_keyed(key),
                ..old(self)@
            }),
            commands.deep_view() == old(self)@.state.database_name_commands(key),
            old(self)@.state.well_formed() ==> final(self)@.state.well_formed(),
    {
        proof {
            lemma_model_scalars(&self.state);
            lemma_model_texts(&self.state);
        }
        match key {
            Key::Esc => {
                self.state.cancel_database_name_input();
                return no_commands();
            },
            Key::Enter => {
                if !is_blank(self.state.new_database_name.as_str()) {
                    let name = self.state.new_database_name.clone();
                    self.state.cancel_database_name_input();
                    return one_command(Command::CreateDatabase { name });
                }
                return no_commands();
            },
            Key::Backspace => {
                self.state.remove_char_from_database_name();
                return no_commands();
            },
            Key::Char(c) => {
                self.state.add_char_to_database_name(c);
                return no_commands();
            },
            _ => {
                return no_commands();
            },
        }
    }

    /// Handles a key in the input for the file to save to.
    pub fn handle_save_filename_key(&mut self, key: Key, catalog: &Catalog) -> (commands: Vec<
        Command,
    >)
        ensures
            final(self)@ == (AppModel { state: final(self)@.state, ..old(self)@ }),
            save_filename_key_handled(
                old(self)@.state,
                catalog.deep_view(),
                key,
                final(self)@.state,
                commands.deep_view(),
            ),
            old(self)@.state.well_formed() ==> final(self)@.state.well_formed(),
    {
        proof {
            lemma_model_texts(&self.state);
        }
        match key {
            Key::Esc => {
                self.state.cancel_save_filename_input();
                return no_commands();
            },
            Key::Enter => {
                return self.confirm_save_filename(catalog);
            },
            Key::Backspace => {
                self.state.remove_char_from_save_filename();
                return no_commands();
            },
            Key::Char(c) => {
                self.state.add_char_to_save_filename(c);
                return no_commands();
            },
            _ => {
                return no_commands();
            },
        }
    }

    /// Asks for the current database to be saved to the file named in the
    /// input, or says that there is none, and closes the input. On a blank
    /// name nothing happens.
    fn confirm_save_filename(&mut self, catalog: &Catalog) -> (commands: Vec<Command>)
        ensures
            final(self)@ == (AppModel { state: final(self)@.state, ..old(self)@ }),
            save_filename_key_handled(
                old(self)@.state,
                catalog.deep_view(),
                Key::Enter,
                final(self)@.state,
                commands.deep_view(),
            ),
            old(self)@.state.well_formed() ==> final(self)@.state.well_formed(),
    {
        proof {
            lemma_model_texts(&self.state);
        }
        if is_blank(self.state.save_filename.as_str()) {
            return no_commands();
        }
        match &catalog.current_database {
            Some(database) => {
                let file_path = file_name_for_database(self.state.save_filename.as_str());
                self.state.cancel_save_filename_input();
                one_command(Command::SaveDatabase { database: database.clone(), file_path })
            },
            None => {
                self.state.cancel_save_filename_input();
                self.state.show_error("No database selected to save".to_owned());
                no_commands()
            },
        }
    }

    /// Asks for a view over what the table shows, or says why it cannot.
    pub fn create_view_from_current_state(&mut self, catalog: &Catalog) -> (commands: Vec<Command>)
        ensures
            final(self)@ == (AppModel { state: final(self)@.state, ..old(self)@ }),
            view_requested(
                old(self)@.state,
                catalog.deep_view(),
                old(self)@.state,
                final(self)@.state,
                commands.deep_view(),
            ),
            old(self)@.state.well_formed() ==> final(self)@.state.well_formed(),
    {
        match self.view_request(catalog) {
            Ok(command) => one_command(command),
            Err(message) => {
                self.state.show_error(message);
                no_commands()
            },
        }
    }

    /// Handles a key in the input for the name of a view.
    pub fn handle_view_name_key(&mut self, key: Key, catalog: &Catalog) -> (commands: Vec<Command>)
        ensures
            final(self)@ == (AppModel { state: final(self)@.state, ..old(self)@ }),
            view_name_key_handled(
                old(self)@.state,
                catalog.deep_view(),
                key,
                final(self)@.state,
                commands.deep_view(),
            ),
            old(self)@.state.well_formed() ==> final(self)@.state.well_formed(),
    {
        match key {
            Key::Esc => {
                self.state.cancel_view_name_input();
                return no_commands();
            },
            Key::Enter => {
                return self.confirm_view_name(catalog);
            },
            Key::Backspace => {
                self.state.remove_char_from_view_name();
                return no_commands();
            },
            Key::Char(c) => {
                self.state.add_char_to_view_name(c);
                return no_commands();
            },
            _ => {
                return no_commands();
            },
        }
    }

    /// Asks for the view named in the input and closes the input. On a
    /// blank name nothing happens.
    fn confirm_view_name(&mut self, catalog: &Catalog) -> (commands: Vec<Command>)
        ensures
            final(self)@ == (AppModel { state: final(self)@.state, ..old(self)@ }),
            view_name_key_handled(
                old(self)@.state,
                catalog.deep_view(),
                Key::Enter,
                final(self)@.state,
                commands.deep_view(),
            ),
            old(self)@.state.well_formed() ==> final(self)@.state.well_formed(),
    {
        proof {
            lemma_model_texts(&self.state);
        }
        if is_blank(self.state.new_view_name.as_str()) {
            return no_commands();
        }
        let request = self.view_request(catalog);
        self.state.cancel_view_name_input();
        match request {
            Ok(command) => one_command(command),
            Err(message) => {
                self.state.show_error(message);
                no_commands()
            },
        }
    }

    /// What becomes of a request for a view: the command to send, or the
    /// words to turn it down with.
    fn view_request(&self, catalog: &Catalog) -> (request: Result<Command, String>)
        ensures
            match view_request(self@.state, catalog.deep_view()) {
                ViewRequest::Create { view_name, sql } => request is Ok && request->Ok_0.deep_view()
                    == (CommandModel::CreateView { view_name, sql }),
                ViewRequest::Refused { message } => request is Err && request->Err_0@ == message,
            },
    {
        proof {
            lemma_model_texts(&self.state);
        }
        let table = match &self.state.selected_table {
            Some(table) => if catalog.connected {
                Some(table.clone())
            } else {
                None
            },
            None => None,
        };
        match table {
            Some(table_name) => {
                let view_name = trim_text(self.state.new_view_name.as_str());
                match self.state.generate_view_sql(table_name.as_str()) {
                    Some(query) => {
                        let mut sql = "CREATE VIEW ".to_owned();
                        sql.append(view_name.as_str());
                        sql.append(" AS ");
                        sql.append(query.as_str());
                        Ok(Command::CreateView { view_name, sql })
                    },
                    None => Err("Failed to generate SQL for current view state".to_owned()),
                }
            },
            None => Err("No database connection or table selected".to_owned()),
        }
    }

    /// Handles a key in the filter input.
    pub fn handle_search_key(&mut self, key: Key) -> (commands: Vec<Command>)
        ensures
            final(self)@ == (AppModel { state: final(self)@.state, ..old(self)@ }),
            search_key_handled(old(self)@.state, key, final(self)@.state, commands.deep_view()),
            old(self)@.state.well_formed() ==> final(self)@.state.well_formed(),
    {
        match key {
            Key::Esc => {
                self.state.cancel_search();
                no_commands()
            },
            Key::Enter => self.commit_search(),
            Key::Backspace => self.edit_search(key),
            Key::Char(_) => self.edit_search(key),
            _ => no_commands(),
        }
    }

    /// Commits the filter that was typed and fetches the rows anew.
    fn commit_search(&mut self) -> (commands: Vec<Command>)
        ensures
            final(self)@ == (AppModel { state: final(self)@.state, ..old(self)@ }),
            search_key_handled(
                old(self)@.state,
                Key::Enter,
                final(self)@.state,
                commands.deep_view(),
            ),
            old(self)@.state.well_formed() ==> final(self)@.state.well_formed(),
    {
        if self.state.finalize_search() {
            self.begin_fetch(Refresh::Rows { limit: false })
        } else {
            no_commands()
        }
    }

    /// Changes the filter text by a key and has the new text checked.
    fn edit_search(&mut self, key: Key) -> (commands: Vec<Command>)
        requires
            key is Char || key == Key::Backspace,
        ensures
            final(self)@ == (AppModel { state: final(self)@.state, ..old(self)@ }),
            search_key_handled(old(self)@.state, key, final(self)@.state, commands.deep_view()),
            old(self)@.state.well_formed() ==> final(self)@.state.well_formed(),
    {
        proof {
            lemma_model_scalars(&self.state);
        }
        if !self.state.is_searching {
            return no_commands();
        }
        match key {
            Key::Char(c) => self.state.add_char_to_search(c),
            _ => self.state.remove_char_from_search(),
        }
        self.begin_filter_check()
    }

    /// Handles a key in the delete confirmation.
    pub fn handle_delete_confirmation_key(&mut self, key: Key) -> (commands: Vec<Command>)
        ensures
            final(self)@ == (AppModel {
                state: old(self)@.state.delete_confirmation_keyed(key),
                ..old(self)@
            }),
            commands.deep_view() == old(self)@.state.delete_confirmation_commands(key),
            old(self)@.state.well_formed() ==> final(self)@.state.well_formed(),
    {
        proof {
            lemma_model_scalars(&self.state);
            lemma_model_texts(&self.state);
        }
        match key {
            Key::Esc => {
                self.state.cancel_delete_confirmation();
                no_commands()
            },
            Key::Char(c) => {
                if c == 'd' {
                    let commands = self.confirm_delete();
                    self.state.cancel_delete_confirmation();
                    commands
                } else {
                    no_commands()
                }
            },
            _ => no_commands(),
        }
    }

    /// Asks for what the delete confirmation names to be deleted.
    pub fn confirm_delete(&self) -> (commands: Vec<Command>)
        ensures
            commands.deep_view() == self@.state.delete_confirmation_commands(Key::Char('d')),
    {
        proof {
            lemma_model_scalars(&self.state);
            lemma_model_texts(&self.state);
        }
        match &self.state.delete_confirmation {
            DeleteConfirmationState::Database(name) => one_command(
                Command::DeleteDatabase { name: name.clone() },
            ),
            DeleteConfirmationState::Table(name) => one_command(
                Command::DeleteTable { name: name.clone() },
            ),
            DeleteConfirmationState::Inactive => no_commands(),
        }
    }

    /// Handles a key in the input for the name of a new table.
    pub fn handle_table_name_key(&mut self, key: Key) -> (commands: Vec<Command>)
        ensures
            final(self)@ == (AppModel { state: final(self)@.state, ..old(self)@ }),
            table_name_key_handled(
                old(self)@.state,
                key,
                final(self)@.state,
                commands.deep_view(),
            ),
            old(self)@.state.well_formed() ==> final(self)@.state.well_formed(),
    {
        proof {
            lemma_model_scalars(&self.state);
            lemma_model_texts(&self.state);
        }
        match key {
            Key::Esc => {
                self.state.cancel_table_creation();
                no_commands()
            },
            Key::Enter => {
                if !is_blank(self.state.new_table_name.as_str()) {
                    self.state.confirm_table_name();
                    one_command(Command::OpenFileBrowser)
                } else {
                    no_commands()
                }
            },
            Key::Backspace => {
                self.state.remove_char_from_table_name();
                no_commands()
            },
            Key::Char(c) => {
                self.state.add_char_to_table_name(c);
                no_commands()
            },
            _ => no_commands(),
        }
    }
}

} // verus!
