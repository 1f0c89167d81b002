//! What the outside reports back: each piece of work that a command asked
//! for ends in an event, and the event ends in a notification, a change
//! of selection, or a further command.

use crate::controller::moves::fetch_begun;
use crate::controller::{
    no_commands, one_command, App, AppModel, Catalog, CatalogModel, Command, CommandModel,
    Refresh,
};
use crate::files::{detect_file_type, file_type_of, FileType};
use crate::focus::{NavigationPanel, TableCreationStep};
use crate::names::Name;
use crate::notify::NotificationType;
use crate::state::basics::{notified, wizard_closed};
use crate::state::{lemma_model_scalars, lemma_model_texts, ready_text, ApplicationState, StateModel};
use crate::strings::same_text;
use std::path::Path;
use vstd::prelude::*;
use vstd::string::*;

verus! {

/// How a piece of outside work ended: well, or not, with the words of the
/// failure.
pub type Outcome = Result<(), String>;

/// The notification that reports `outcome`: a success with `done`, or an
/// error with the words of the failure behind `failed`.
pub open spec fn outcome_told(
    before: StateModel,
    after: StateModel,
    outcome: Outcome,
    done: Seq<char>,
    failed: Seq<char>,
) -> bool {
    match outcome {
        Ok(_) => notified(before, after, NotificationType::Success, done),
        Err(why) => notified(before, after, NotificationType::Error, failed + why@),
    }
}

impl StateModel {
    /// The state with no database and no table selected.
    pub open spec fn nothing_selected(self) -> StateModel {
        StateModel { selected_database: None, selected_table: None, ..self }
    }

    /// The state without the table `name`, where that was the selected
    /// one: neither table nor data are left.
    pub open spec fn table_gone(self, name: Name) -> StateModel {
        if self.selected_table == Some(name) {
            StateModel { table_data: None, selected_table: None, ..self }
        } else {
            self
        }
    }
}

/// A chosen file of the given kind was routed: a database file is
/// connected to; a data file is imported into the table that the creation
/// wizard has a name for; anything else is turned down.
pub open spec fn file_routed(
    s: StateModel,
    kind: Option<FileType>,
    after: StateModel,
    commands: Seq<CommandModel>,
) -> bool {
    match kind {
        Some(FileType::Database) => after == s && commands == seq![
            CommandModel::ConnectChosenFile,
        ],
        Some(FileType::DataFile(_)) => if s.is_creating_table && s.table_creation_step
            == TableCreationStep::SelectingFile {
            after == (StateModel {
                table_creation_step: TableCreationStep::ImportingData,
                status_message: ready_text(),
                ..s
            }) && commands == seq![
                CommandModel::ImportChosenFile { table_name: s.new_table_name },
            ]
        } else {
            commands.len() == 0 && notified(
                s,
                after,
                NotificationType::Error,
                "Please start table creation first (press 'i')"@,
            )
        },
        None => commands.len() == 0 && notified(
            s,
            after,
            NotificationType::Error,
            "Unsupported file type"@,
        ),
    }
}

/// A file was chosen in the file browser: it is routed by its kind, and
/// the file browser closes as the last thing.
pub open spec fn file_chosen_handled(
    before: AppModel,
    kind: Option<FileType>,
    after: AppModel,
    commands: Seq<CommandModel>,
) -> bool {
    &&& after == (AppModel { state: after.state, show_file_browser: false, ..before })
    &&& commands.len() > 0
    &&& commands.last() == CommandModel::CloseFileBrowser
    &&& file_routed(before.state, kind, after.state, commands.drop_last())
}

/// An import ended. A failure is notified and closes the wizard. After a
/// success the import is notified, the current database and the new table
/// are selected, the wizard closes with a second notification, the mark
/// of the table list follows, and the data of the table is asked for.
pub open spec fn import_handled(
    before: AppModel,
    catalog: CatalogModel,
    file_name: Seq<char>,
    table_name: Name,
    outcome: Outcome,
    after: AppModel,
    commands: Seq<CommandModel>,
) -> bool {
    let s = before.state;
    match outcome {
        Err(why) => commands.len() == 0 && after == (AppModel {
            state: after.state,
            ..before
        }) && exists|told: StateModel|
            #![auto]
            notified(s, told, NotificationType::Error, "Import failed: "@ + why@) && notified(
                wizard_closed(told),
                after.state,
                NotificationType::Error,
                "Failed to create table '"@ + s.new_table_name + "'"@,
            ),
        Ok(_) => exists|told: StateModel, created: StateModel|
            #[trigger] import_steps(
                before,
                catalog,
                file_name,
                table_name,
                told,
                created,
                after,
                commands,
            ),
    }
}

/// The steps after an import that ended well, by way of the state `told`
/// in which the import is notified and the state `created` in which the
/// wizard has closed.
pub open spec fn import_steps(
    before: AppModel,
    catalog: CatalogModel,
    file_name: Seq<char>,
    table_name: Name,
    told: StateModel,
    created: StateModel,
    after: AppModel,
    commands: Seq<CommandModel>,
) -> bool {
    let placed = (StateModel {
        selected_database: match catalog.current_database {
            Some(database) => Some(database),
            None => told.selected_database,
        },
        ..told
    }).table_selected(table_name);
    &&& notified(
        before.state,
        told,
        NotificationType::Success,
        "Imported "@ + file_name + " into table '"@ + table_name + "'"@,
    )
    &&& notified(
        wizard_closed(
            StateModel {
                selected_table: Some(placed.new_table_name),
                active_panel: NavigationPanel::TableList,
                ..placed
            },
        ),
        created,
        NotificationType::Success,
        "Successfully created table '"@ + placed.new_table_name + "'"@,
    )
    &&& fetch_begun(created, Refresh::Initial, after.state, commands)
    &&& after == (AppModel {
        state: after.state,
        selected_table_index: (AppModel { state: created, ..before }).synced_table_index(catalog),
        ..before
    })
}

/// Text in three parts.
fn three_parts(a: &str, b: &str, c: &str) -> (text: String)
    ensures
        text@ == a@ + b@ + c@,
{
    let mut text = a.to_owned();
    text.append(b);
    text.append(c);
    text
}

impl ApplicationState {
    /// Reports how a piece of outside work ended.
    pub fn tell_outcome(&mut self, outcome: &Outcome, done: String, failed: &str)
        ensures
            outcome_told(old(self)@, final(self)@, *outcome, done@, failed@),
            old(self)@.well_formed() ==> final(self)@.well_formed(),
    {
        match outcome {
            Ok(_) => self.show_success(done),
            Err(why) => {
                let mut message = failed.to_owned();
                message.append(why.as_str());
                self.show_error(message);
            },
        }
    }

    /// Forgets the selected database and table.
    pub fn select_nothing(&mut self)
        ensures
            final(self)@ == old(self)@.nothing_selected(),
            old(self)@.well_formed() ==> final(self)@.well_formed(),
    {
        proof {
            reveal(crate::state::model_of);
        }
        self.selected_database = None;
        self.selected_table = None;
    }

    /// Forgets the table `name` and its data, where it is the selected
    /// one.
    pub fn forget_table(&mut self, name: &str)
        ensures
            final(self)@ == old(self)@.table_gone(name@),
            old(self)@.well_formed() ==> final(self)@.well_formed(),
    {
        proof {
            reveal(crate::state::model_of);
        }
        let gone = match &self.selected_table {
            Some(current) => same_text(current.as_str(), name),
            None => false,
        };
        if gone {
            self.table_data = None;
            self.selected_table = None;
        }
    }

    /// The name typed into the creation wizard, where the wizard waits for
    /// a file.
    pub fn table_awaiting_file(&self) -> (name: Option<String>)
        ensures
            name.deep_view() == if self@.is_creating_table && self@.table_creation_step
                == TableCreationStep::SelectingFile {
                Some(self@.new_table_name)
            } else {
                None
            },
    {
        proof {
            lemma_model_scalars(self);
            lemma_model_texts(self);
        }
        if self.is_creating_table && self.table_creation_step
            == TableCreationStep::SelectingFile {
            Some(self.new_table_name.clone())
        } else {
            None
        }
    }
}

impl App {
    /// The file browser was opened, or could not be.
    pub fn file_browser_opened(&mut self, outcome: Outcome)
        ensures
            match outcome {
                Ok(_) => final(self)@ == (AppModel {
                    state: final(self)@.state,
                    show_file_browser: true,
                    ..old(self)@
                }) && notified(
                    old(self)@.state,
                    final(self)@.state,
                    NotificationType::Info,
                    "File browser opened"@,
                ),
                Err(why) => final(self)@ == (AppModel {
                    state: final(self)@.state,
                    ..old(self)@
                }) && notified(
                    old(self)@.state,
                    final(self)@.state,
                    NotificationType::Error,
                    "Error opening file browser: "@ + why@,
                ),
            },
            old(self)@.state.well_formed() ==> final(self)@.state.well_formed(),
    {
        match outcome {
            Ok(_) => {
                self.show_file_browser = true;
                self.state.show_info("File browser opened".to_owned());
            },
            Err(why) => {
                let mut message = "Error opening file browser: ".to_owned();
                message.append(why.as_str());
                self.state.show_error(message);
            },
        }
    }

    /// A file of the given kind was chosen in the file browser.
    pub fn file_of_kind_chosen(&mut self, kind: Option<FileType>) -> (commands: Vec<Command>)
        ensures
            file_chosen_handled(old(self)@, kind, final(self)@, commands.deep_view()),
            old(self)@.state.well_formed() ==> final(self)@.state.well_formed(),
    {
        let mut commands = self.route_file(kind);
        self.show_file_browser = false;
        let ghost work = commands.deep_view();
        commands.push(Command::CloseFileBrowser);
        assert(commands.deep_view() =~= work.push(CommandModel::CloseFileBrowser));
        assert(commands.deep_view().drop_last() =~= work);
        commands
    }

    /// Routes a chosen file by its kind.
    fn route_file(&mut self, kind: Option<FileType>) -> (commands: Vec<Command>)
        ensures
            final(self)@ == (AppModel { state: final(self)@.state, ..old(self)@ }),
            file_routed(old(self)@.state, kind, final(self)@.state, commands.deep_view()),
            old(self)@.state.well_formed() ==> final(self)@.state.well_formed(),
    {
        match kind {
            Some(FileType::Database) => one_command(Command::ConnectChosenFile),
            Some(FileType::DataFile(_)) => match self.state.table_awaiting_file() {
                Some(table_name) => {
                    self.state.set_importing_data();
                    one_command(Command::ImportChosenFile { table_name })
                },
                None => {
                    self.state.show_error(
                        "Please start table creation first (press 'i')".to_owned(),
                    );
                    no_commands()
                },
            },
            None => {
                self.state.show_error("Unsupported file type".to_owned());
                no_commands()
            },
        }
    }

    /// A file was chosen in the file browser.
    pub fn file_chosen(&mut self, path: &Path) -> (commands: Vec<Command>)
        ensures
            file_chosen_handled(old(self)@, file_type_of(path), final(self)@, commands.deep_view()),
            old(self)@.state.well_formed() ==> final(self)@.state.well_formed(),
    {
        self.file_of_kind_chosen(detect_file_type(path))
    }

    /// The chosen database file was connected to, or could not be.
    pub fn file_connected(&mut self, name: String, outcome: Outcome, catalog: &Catalog)
        ensures
            final(self)@ == (AppModel {
                state: final(self)@.state,
                selected_db_index: old(self)@.synced_db_index(catalog.deep_view()),
                ..old(self)@
            }),
            match outcome {
                Ok(_) => exists|told: StateModel|
                    #![auto]
                    notified(
                        old(self)@.state,
                        told,
                        NotificationType::Success,
                        "Connected to database: "@ + name@,
                    ) && final(self)@.state == (StateModel {
                        selected_database: Some(name@),
                        ..told
                    }),
                Err(_) => final(self)@.state == old(self)@.state,
            },
            old(self)@.state.well_formed() ==> final(self)@.state.well_formed(),
    {
        if outcome.is_ok() {
            let mut message = "Connected to database: ".to_owned();
            message.append(name.as_str());
            self.state.show_success(message);
            let ghost told = self.state@;
            self.state.select_database(name);
            assert(notified(
                old(self)@.state,
                told,
                NotificationType::Success,
                "Connected to database: "@ + name@,
            ));
        }
        self.sync_selected_db_index(catalog);
    }

    /// An import ended.
    pub fn import_finished(
        &mut self,
        file_name: String,
        table_name: String,
        outcome: Outcome,
        catalog: &Catalog,
    ) -> (commands: Vec<Command>)
        ensures
            import_handled(
                old(self)@,
                catalog.deep_view(),
                file_name@,
                table_name@,
                outcome,
                final(self)@,
                commands.deep_view(),
            ),
    {
        match outcome {
            Ok(_) => self.import_succeeded(file_name, table_name, catalog),
            Err(why) => {
                let mut message = "Import failed: ".to_owned();
                message.append(why.as_str());
                self.state.show_error(message);
                let ghost told = self.state@;
                self.state.complete_table_creation(false);
                assert(notified(
                    old(self)@.state,
                    told,
                    NotificationType::Error,
                    "Import failed: "@ + why@,
                ));
                no_commands()
            },
        }
    }

    /// An import ended well.
    fn import_succeeded(&mut self, file_name: String, table_name: String, catalog: &Catalog) -> (commands:
        Vec<Command>)
        ensures
            import_handled(
                old(self)@,
                catalog.deep_view(),
                file_name@,
                table_name@,
                Ok(()),
                final(self)@,
                commands.deep_view(),
            ),
            old(self)@.state.well_formed() ==> final(self)@.state.well_formed(),
    {
        let mut message = three_parts("Imported ", file_name.as_str(), " into table '");
        message.append(table_name.as_str());
        message.append("'");
        self.state.show_success(message);
        let ghost told = self.state@;
        if let Some(database) = &catalog.current_database {
            self.state.select_database(database.clone());
        }
        self.state.select_table(table_name);
        self.state.complete_table_creation(true);
        let ghost created = self.state@;
        self.sync_selected_table_index(catalog);
        let commands = self.begin_fetch(Refresh::Initial);
        proof {
            assert(notified(
                old(self)@.state,
                told,
                NotificationType::Success,
                "Imported "@ + file_name@ + " into table '"@ + table_name@ + "'"@,
            ));
            assert(fetch_begun(created, Refresh::Initial, self@.state, commands.deep_view()));
            assert(import_steps(
                old(self)@,
                catalog.deep_view(),
                file_name@,
                table_name@,
                told,
                created,
                self@,
                commands.deep_view(),
            ));
        }
        commands
    }

    /// A database was created, or could not be. A new database is
    /// selected and the marks of the two lists follow.
    pub fn database_created(&mut self, name: String, outcome: Outcome, catalog: &Catalog)
        ensures
            match outcome {
                Ok(_) => final(self)@ == (AppModel {
                    state: final(self)@.state,
                    selected_db_index: old(self)@.synced_db_index(catalog.deep_view()),
                    selected_table_index: 0,
                    ..old(self)@
                }) && notified(
                    StateModel { selected_database: Some(name@), ..old(self)@.state },
                    final(self)@.state,
                    NotificationType::Success,
                    "Created database '"@ + name@ + "'"@,
                ),
                Err(why) => final(self)@ == (AppModel {
                    state: final(self)@.state,
                    ..old(self)@
                }) && notified(
                    old(self)@.state,
                    final(self)@.state,
                    NotificationType::Error,
                    "Failed to create database: "@ + why@,
                ),
            },
            old(self)@.state.well_formed() ==> final(self)@.state.well_formed(),
    {
        match outcome {
            Ok(_) => {
                let message = three_parts("Created database '", name.as_str(), "'");
                self.state.select_database(name);
                self.sync_selected_db_index(catalog);
                self.selected_table_index = 0;
                self.state.show_success(message);
            },
            Err(why) => {
                let mut message = "Failed to create database: ".to_owned();
                message.append(why.as_str());
                self.state.show_error(message);
            },
        }
    }

    /// A database was saved to a file, or could not be.
    pub fn database_saved(&mut self, database: String, file_name: String, outcome: Outcome)
        ensures
            final(self)@ == (AppModel { state: final(self)@.state, ..old(self)@ }),
            outcome_told(
                old(self)@.state,
                final(self)@.state,
                outcome,
                "Saved database '"@ + database@ + "' to '"@ + file_name@ + "'"@,
                "Failed to save database: "@,
            ),
            old(self)@.state.well_formed() ==> final(self)@.state.well_formed(),
    {
        let mut done = three_parts("Saved database '", database.as_str(), "' to '");
        done.append(file_name.as_str());
        done.append("'");
        self.state.tell_outcome(&outcome, done, "Failed to save database: ");
    }

    /// A view was created, or could not be.
    pub fn view_created(&mut self, view_name: String, outcome: Outcome)
        ensures
            final(self)@ == (AppModel { state: final(self)@.state, ..old(self)@ }),
            outcome_told(
                old(self)@.state,
                final(self)@.state,
                outcome,
                "View '"@ + view_name@ + "' created successfully"@,
                "Failed to create view: "@,
            ),
            old(self)@.state.well_formed() ==> final(self)@.state.well_formed(),
    {
        let done = three_parts("View '", view_name.as_str(), "' created successfully");
        self.state.tell_outcome(&outcome, done, "Failed to create view: ");
    }

    /// A database was made current, or could not be. Either way the marks
    /// of the two lists are put back.
    pub fn database_selected(&mut self, name: String, outcome: Outcome, catalog: &Catalog)
        ensures
            final(self)@ == (AppModel {
                state: if outcome is Ok {
                    StateModel { selected_database: Some(name@), ..old(self)@.state }
                } else {
                    old(self)@.state
                },
                selected_db_index: old(self)@.synced_db_index(catalog.deep_view()),
                selected_table_index: 0,
                ..old(self)@
            }),
            old(self)@.state.well_formed() ==> final(self)@.state.well_formed(),
    {
        if outcome.is_ok() {
            self.state.select_database(name);
        }
        self.sync_selected_db_index(catalog);
        self.selected_table_index = 0;
    }

    /// The current database was disconnected from, or could not be.
    pub fn disconnected(&mut self, name: String, outcome: Outcome, catalog: &Catalog)
        ensures
            final(self)@ == (AppModel {
                state: final(self)@.state,
                selected_db_index: old(self)@.synced_db_index(catalog.deep_view()),
                ..old(self)@
            }),
            match outcome {
                Ok(_) => exists|told: StateModel|
                    #![auto]
                    notified(
                        old(self)@.state,
                        told,
                        NotificationType::Info,
                        "Disconnected from: "@ + name@,
                    ) && final(self)@.state == told.nothing_selected(),
                Err(_) => final(self)@.state == old(self)@.state,
            },
            old(self)@.state.well_formed() ==> final(self)@.state.well_formed(),
    {
        if outcome.is_ok() {
            let mut message = "Disconnected from: ".to_owned();
            message.append(name.as_str());
            self.state.show_info(message);
            let ghost told = self.state@;
            self.state.select_nothing();
            assert(notified(
                old(self)@.state,
                told,
                NotificationType::Info,
                "Disconnected from: "@ + name@,
            ));
        }
        self.sync_selected_db_index(catalog);
    }

    /// A database was deleted, or could not be.
    pub fn database_deleted(&mut self, name: String, outcome: Outcome, catalog: &Catalog)
        ensures
            final(self)@ == if outcome is Ok {
                AppModel {
                    state: final(self)@.state,
                    selected_db_index: old(self)@.synced_db_index(catalog.deep_view()),
                    selected_table_index: 0,
                    ..old(self)@
                }
            } else {
                AppModel { state: final(self)@.state, ..old(self)@ }
            },
            outcome_told(
                old(self)@.state,
                final(self)@.state,
                outcome,
                "Deleted database '"@ + name@ + "'"@,
                "Failed to delete database: "@,
            ),
            old(self)@.state.well_formed() ==> final(self)@.state.well_formed(),
    {
        if outcome.is_ok() {
            self.sync_selected_db_index(catalog);
            self.selected_table_index = 0;
        }
        let done = three_parts("Deleted database '", name.as_str(), "'");
        self.state.tell_outcome(&outcome, done, "Failed to delete database: ");
    }

    /// A table was deleted, or could not be. Where it was the selected
    /// table, neither table nor data are left.
    pub fn table_deleted(&mut self, name: String, outcome: Outcome, catalog: &Catalog)
        ensures
            match outcome {
                Ok(_) => final(self)@ == (AppModel {
                    state: final(self)@.state,
                    selected_table_index: (AppModel {
                        state: old(self)@.state.table_gone(name@),
                        ..old(self)@
                    }).synced_table_index(catalog.deep_view()),
                    ..old(self)@
                }) && notified(
                    old(self)@.state.table_gone(name@),
                    final(self)@.state,
                    NotificationType::Success,
                    "Deleted table '"@ + name@ + "'"@,
                ),
                Err(why) => final(self)@ == (AppModel {
                    state: final(self)@.state,
                    ..old(self)@
                }) && notified(
                    old(self)@.state,
                    final(self)@.state,
                    NotificationType::Error,
                    "Failed to delete table: "@ + why@,
                ),
            },
            old(self)@.state.well_formed() ==> final(self)@.state.well_formed(),
    {
        match outcome {
            Ok(_) => {
                self.state.forget_table(name.as_str());
                self.sync_selected_table_index(catalog);
                self.state.show_success(three_parts("Deleted table '", name.as_str(), "'"));
            },
            Err(why) => {
                let mut message = "Failed to delete table: ".to_owned();
                message.append(why.as_str());
                self.state.show_error(message);
            },
        }
    }
}

} // verus!
