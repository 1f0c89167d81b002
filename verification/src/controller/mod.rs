//! The navigation controller. It owns the state, decides what each key
//! press does to it, and asks for the work that only the outside can do:
//! a key press or an event goes in, the state changes, and a list of
//! commands comes out. Whoever runs the loop carries the commands out and
//! reports each result back as an event.

use crate::names::Name;
use crate::state::{lemma_model_scalars, ApplicationState, StateModel};
use vstd::prelude::*;

pub mod actions;
pub mod data;
pub mod inputs;
pub mod keys;
pub mod laws;
pub mod moves;
pub mod outcomes;
pub mod tick;

verus! {

/// A key press, as far as the controller tells keys apart.
#[derive(Debug, Clone, Copy, PartialEq, Eq, Structural)]
pub enum Key {
    Char(char),
    Tab,
    BackTab,
    Esc,
    Enter,
    Backspace,
    Up,
    Down,
    Left,
    Right,
    Other,
}

/// What the controller is told of the databases at hand.
#[derive(Debug, Clone)]
pub struct Catalog {
    /// The names of the databases, in the order of the dropdown.
    pub databases: Vec<String>,
    /// The database that queries go to.
    pub current_database: Option<String>,
    /// Whether a connection to the current database is open.
    pub connected: bool,
    /// The names of the tables of the current database, in the order of
    /// the table list.
    pub tables: Vec<String>,
}

/// A catalog as contracts see it.
pub ghost struct CatalogModel {
    pub databases: Seq<Name>,
    pub current_database: Option<Name>,
    pub connected: bool,
    pub tables: Seq<Name>,
}

impl DeepView for Catalog {
    type V = CatalogModel;

    open spec fn deep_view(&self) -> CatalogModel {
        CatalogModel {
            databases: self.databases.deep_view(),
            current_database: self.current_database.deep_view(),
            connected: self.connected,
            tables: self.tables.deep_view(),
        }
    }
}

/// Why table data is fetched, which settles what the query holds and what
/// becomes of the selection when the data arrives.
#[derive(Debug, Clone, Copy, PartialEq, Eq, Structural)]
pub enum Refresh {
    /// A table was selected: no filter yet, selection back to the start.
    Initial,
    /// Sort or filter changed: the rows start again at the top.
    Rows { limit: bool },
    /// Columns were moved, hidden or shown: the rows stay where they are.
    Layout,
    /// A filter that is still being typed is tried out.
    Preview,
}

/// Work for the outside.
#[derive(Debug, Clone, PartialEq, Eq)]
pub enum Command {
    /// Open the file browser and report `Event::FileBrowserOpened`.
    OpenFileBrowser,
    /// Close the file browser.
    CloseFileBrowser,
    /// Hand the key to the file browser; report `Event::FileChosen` where
    /// that picks a file.
    BrowserKey(Key),
    /// Connect to the file that was chosen; report `Event::FileConnected`.
    ConnectChosenFile,
    /// Import the file that was chosen into the table; report
    /// `Event::ImportFinished`.
    ImportChosenFile { table_name: String },
    /// Create an in-memory database of this name and make it current;
    /// report `Event::DatabaseCreated`.
    CreateDatabase { name: String },
    /// Save the database to the file; report `Event::DatabaseSaved`.
    SaveDatabase { database: String, file_path: String },
    /// Run the statement that creates the view; report
    /// `Event::ViewCreated`.
    CreateView { view_name: String, sql: String },
    /// Make the database current; report `Event::DatabaseSelected`.
    SelectDatabase { name: String },
    /// Disconnect from the database; report `Event::Disconnected`.
    Disconnect { name: String },
    /// Remove the database; report `Event::DatabaseDeleted`.
    DeleteDatabase { name: String },
    /// Drop the table; report `Event::TableDeleted`.
    DeleteTable { name: String },
    /// Ask the engine for the column names of the table; report
    /// `Event::ColumnsLoaded`.
    LoadColumns { table: String, purpose: Refresh },
    /// Run the query, take in no more rows than `row_cap` where there is
    /// one, and report `Event::QueryFinished`.
    RunQuery { sql: String, purpose: Refresh, row_cap: Option<usize> },
    /// Ask the engine whether it can prepare the statement; report
    /// `Event::FilterChecked`.
    CheckFilter { sql: String },
}

/// A command as contracts see it.
pub ghost enum CommandModel {
    OpenFileBrowser,
    CloseFileBrowser,
    BrowserKey(Key),
    ConnectChosenFile,
    ImportChosenFile { table_name: Name },
    CreateDatabase { name: Name },
    SaveDatabase { database: Name, file_path: Seq<char> },
    CreateView { view_name: Name, sql: Seq<char> },
    SelectDatabase { name: Name },
    Disconnect { name: Name },
    DeleteDatabase { name: Name },
    DeleteTable { name: Name },
    LoadColumns { table: Name, purpose: Refresh },
    RunQuery { sql: Seq<char>, purpose: Refresh, row_cap: Option<usize> },
    CheckFilter { sql: Seq<char> },
}

impl DeepView for Command {
    type V = CommandModel;

    open spec fn deep_view(&self) -> CommandModel {
        match self {
            Command::OpenFileBrowser => CommandModel::OpenFileBrowser,
            Command::CloseFileBrowser => CommandModel::CloseFileBrowser,
            Command::BrowserKey(key) => CommandModel::BrowserKey(*key),
            Command::ConnectChosenFile => CommandModel::ConnectChosenFile,
            Command::ImportChosenFile { table_name } => CommandModel::ImportChosenFile {
                table_name: table_name@,
            },
            Command::CreateDatabase { name } => CommandModel::CreateDatabase { name: name@ },
            Command::SaveDatabase { database, file_path } => CommandModel::SaveDatabase {
                database: database@,
                file_path: file_path@,
            },
            Command::CreateView { view_name, sql } => CommandModel::CreateView {
                view_name: view_name@,
                sql: sql@,
            },
            Command::SelectDatabase { name } => CommandModel::SelectDatabase { name: name@ },
            Command::Disconnect { name } => CommandModel::Disconnect { name: name@ },
            Command::DeleteDatabase { name } => CommandModel::DeleteDatabase { name: name@ },
            Command::DeleteTable { name } => CommandModel::DeleteTable { name: name@ },
            Command::LoadColumns { table, purpose } => CommandModel::LoadColumns {
                table: table@,
                purpose: *purpose,
            },
            Command::RunQuery { sql, purpose, row_cap } => CommandModel::RunQuery {
                sql: sql@,
                purpose: *purpose,
                row_cap: *row_cap,
            },
            Command::CheckFilter { sql } => CommandModel::CheckFilter { sql: sql@ },
        }
    }
}

/// The controller: the state and the marks in the two lists on the left.
#[derive(Debug, Clone)]
pub struct App {
    pub state: ApplicationState,
    pub selected_db_index: usize,
    pub selected_table_index: usize,
    pub show_file_browser: bool,
}

/// The controller as contracts see it.
pub ghost struct AppModel {
    pub state: StateModel,
    pub selected_db_index: usize,
    pub selected_table_index: usize,
    pub show_file_browser: bool,
}

impl View for App {
    type V = AppModel;

    open spec fn view(&self) -> AppModel {
        AppModel {
            state: self.state@,
            selected_db_index: self.selected_db_index,
            selected_table_index: self.selected_table_index,
            show_file_browser: self.show_file_browser,
        }
    }
}

/// Who owns the keyboard. A modal owns it alone; the modals are asked in
/// this order, and only where none is open do keys reach the panels.
pub enum InputOwner {
    FileBrowser,
    DatabaseName,
    SaveFilename,
    ViewName,
    Search,
    DeleteConfirmation,
    TableName,
    Panels,
}

impl AppModel {
    /// Who owns the keyboard.
    pub open spec fn input_owner(self) -> InputOwner {
        if self.show_file_browser {
            InputOwner::FileBrowser
        } else if self.state.is_entering_database_name {
            InputOwner::DatabaseName
        } else if self.state.is_entering_save_filename {
            InputOwner::SaveFilename
        } else if self.state.is_entering_view_name {
            InputOwner::ViewName
        } else if self.state.is_searching {
            InputOwner::Search
        } else if !(self.state.delete_confirmation is Inactive) {
            InputOwner::DeleteConfirmation
        } else if self.state.is_creating_table && self.state.table_creation_step
            == crate::focus::TableCreationStep::EnteringTableName {
            InputOwner::TableName
        } else {
            InputOwner::Panels
        }
    }
}

/// No command.
pub(crate) fn no_commands() -> (commands: Vec<Command>)
    ensures
        commands.deep_view() == Seq::<CommandModel>::empty(),
{
    let commands: Vec<Command> = Vec::new();
    assert(commands.deep_view() =~= Seq::<CommandModel>::empty());
    commands
}

/// One command.
pub(crate) fn one_command(command: Command) -> (commands: Vec<Command>)
    ensures
        commands.deep_view() == seq![command.deep_view()],
{
    let mut commands: Vec<Command> = Vec::new();
    commands.push(command);
    assert(commands.deep_view() =~= seq![command.deep_view()]);
    commands
}

/// A command, or none.
pub(crate) fn optional_command(command: Option<Command>) -> (commands: Vec<Command>)
    ensures
        commands.deep_view() == match command {
            Some(c) => seq![c.deep_view()],
            None => Seq::<CommandModel>::empty(),
        },
{
    match command {
        Some(c) => one_command(c),
        None => no_commands(),
    }
}

impl App {
    /// A controller with a fresh state.
    pub fn new() -> (app: Self)
        ensures
            app@ == (AppModel {
                state: crate::state::initial_model(),
                selected_db_index: 0,
                selected_table_index: 0,
                show_file_browser: false,
            }),
            app@.state.well_formed(),
    {
        Self {
            state: ApplicationState::new(),
            selected_db_index: 0,
            selected_table_index: 0,
            show_file_browser: false,
        }
    }

    /// Who owns the keyboard.
    pub fn input_owner(&self) -> (owner: InputOwner)
        ensures
            owner == self@.input_owner(),
    {
        proof {
            lemma_model_scalars(&self.state);
        }
        if self.show_file_browser {
            InputOwner::FileBrowser
        } else if self.state.is_entering_database_name {
            InputOwner::DatabaseName
        } else if self.state.is_entering_save_filename {
            InputOwner::SaveFilename
        } else if self.state.is_entering_view_name {
            InputOwner::ViewName
        } else if self.state.is_searching {
            InputOwner::Search
        } else if self.state.is_delete_confirmation_active() {
            InputOwner::DeleteConfirmation
        } else if self.state.is_creating_table && self.state.table_creation_step
            == crate::focus::TableCreationStep::EnteringTableName {
            InputOwner::TableName
        } else {
            InputOwner::Panels
        }
    }
}

} // verus!
