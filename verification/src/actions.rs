//! The actions of the user that change state or reach the outside, named
//! so that they can be logged.

use std::path::PathBuf;
use std::time::Instant;
use vstd::prelude::*;
use vstd::string::*;

verus! {

/// What `{:?}` writes for a path.
pub uninterp spec fn debug_of_path(path: &PathBuf) -> Seq<char>;

/// The `Debug` form of a path, as `std` writes it. The contract only
/// names the result.
#[verifier::external_body]
pub(crate) fn path_debug_text(path: &PathBuf) -> (text: String)
    ensures
        text@ == debug_of_path(path),
{
    format!("{:?}", path)
}

#[derive(Debug, Clone)]
pub enum DatabaseType {
    InMemory,
    File(PathBuf),
}

/// Represents meaningful user actions that change state or perform I/O.
#[derive(Debug, Clone)]
pub enum Action {
    ConnectToDatabase { database_name: String, path: String },
    DisconnectFromDatabase { database_name: String },
    CreateNewDatabase { database_name: String, database_type: DatabaseType },
    SaveDatabase { database_name: String, file_path: String },
    SelectDatabase { database_name: String },
    SelectTable { table_name: String },
    RefreshTables,
    SelectFile { path: String },
    ExecuteQuery { query: String },
    ImportData { source_path: String, format: String, destination_table: String },
    ExportData { source_table: String, destination_path: String, format: String },
}

/// Tracks an action in progress.
#[derive(Debug, Clone)]
pub struct ActionTracker {
    pub action: Action,
    pub start_time: Instant,
}

/// The kind of a database in words.
pub open spec fn database_type_text(kind: DatabaseType) -> Seq<char> {
    match kind {
        DatabaseType::InMemory => "InMemory"@,
        DatabaseType::File(path) => "File("@ + debug_of_path(&path) + ")"@,
    }
}

/// An action in words.
pub open spec fn action_text(action: Action) -> Seq<char> {
    match action {
        Action::ConnectToDatabase { database_name, path } => "Connect to database '"@
            + database_name@ + "' at '"@ + path@ + "'"@,
        Action::DisconnectFromDatabase { database_name } => "Disconnect from database '"@
            + database_name@ + "'"@,
        Action::CreateNewDatabase { database_name, database_type } => "Create new database '"@
            + database_name@ + "' ("@ + database_type_text(database_type) + ")"@,
        Action::SaveDatabase { database_name, file_path } => "Save database '"@ + database_name@
            + "' to '"@ + file_path@ + "'"@,
        Action::SelectDatabase { database_name } => "Select database '"@ + database_name@ + "'"@,
        Action::SelectTable { table_name } => "Select table '"@ + table_name@ + "'"@,
        Action::RefreshTables => "Refresh tables"@,
        Action::SelectFile { path } => "Select file '"@ + path@ + "'"@,
        Action::ExecuteQuery { query } => "Execute query: "@ + query@,
        Action::ImportData { source_path, format, destination_table } => "Import "@ + format@
            + " data from '"@ + source_path@ + "' to table '"@ + destination_table@ + "'"@,
        Action::ExportData { source_table, destination_path, format } => "Export table '"@
            + source_table@ + "' to '"@ + destination_path@ + "' as "@ + format@,
    }
}

/// `first`, `a`, `between`, `b` and `last` written one after another.
fn five_parts(first: &str, a: &str, between: &str, b: &str, last: &str) -> (text: String)
    ensures
        text@ == first@ + a@ + between@ + b@ + last@,
{
    let mut text = first.to_owned();
    text.append(a);
    text.append(between);
    text.append(b);
    text.append(last);
    text
}

impl DatabaseType {
    /// The kind of the database in words.
    pub fn describe(&self) -> (text: String)
        ensures
            text@ == database_type_text(*self),
    {
        match self {
            DatabaseType::InMemory => "InMemory".to_owned(),
            DatabaseType::File(path) => {
                let mut text = "File(".to_owned();
                text.append(path_debug_text(path).as_str());
                text.append(")");
                text
            },
        }
    }
}

impl Action {
    /// The action in words.
    pub fn describe(&self) -> (text: String)
        ensures
            text@ == action_text(*self),
    {
        proof {
            reveal_strlit("");
        }
        let text = match self {
            Action::ConnectToDatabase { database_name, path } => five_parts(
                "Connect to database '",
                database_name.as_str(),
                "' at '",
                path.as_str(),
                "'",
            ),
            Action::DisconnectFromDatabase { database_name } => five_parts(
                "Disconnect from database '",
                database_name.as_str(),
                "'",
                "",
                "",
            ),
            Action::CreateNewDatabase { database_name, database_type } => five_parts(
                "Create new database '",
                database_name.as_str(),
                "' (",
                database_type.describe().as_str(),
                ")",
            ),
            Action::SaveDatabase { database_name, file_path } => five_parts(
                "Save database '",
                database_name.as_str(),
                "' to '",
                file_path.as_str(),
                "'",
            ),
            Action::SelectDatabase { database_name } => five_parts(
                "Select database '",
                database_name.as_str(),
                "'",
                "",
                "",
            ),
            Action::SelectTable { table_name } => five_parts(
                "Select table '",
                table_name.as_str(),
                "'",
                "",
                "",
            ),
            Action::RefreshTables => "Refresh tables".to_owned(),
            Action::SelectFile { path } => five_parts("Select file '", path.as_str(), "'", "", ""),
            Action::ExecuteQuery { query } => five_parts(
                "Execute query: ",
                query.as_str(),
                "",
                "",
                "",
            ),
            Action::ImportData { source_path, format, destination_table } => {
                let mut text = five_parts(
                    "Import ",
                    format.as_str(),
                    " data from '",
                    source_path.as_str(),
                    "' to table '",
                );
                text.append(destination_table.as_str());
                text.append("'");
                text
            },
            Action::ExportData { source_table, destination_path, format } => {
                let mut text = five_parts(
                    "Export table '",
                    source_table.as_str(),
                    "' to '",
                    destination_path.as_str(),
                    "' as ",
                );
                text.append(format.as_str());
                text
            },
        };
        assert(text@ =~= action_text(*self));
        text
    }
}

} // verus!
