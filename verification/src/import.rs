//! The file formats that can be imported, told apart by extension.

use crate::paths::{extension_of, extension_text};
use crate::strings::{lowercase_text, lowercased, same_text};
use std::path::Path;
use vstd::prelude::*;
use vstd::string::*;

verus! {

/// Supported file formats for import.
#[derive(Debug, Clone, Copy, PartialEq, Eq, Structural)]
pub enum FileFormat {
    Csv,
    Json,
    Parquet,
}

/// Why a path names no importable file.
#[derive(Debug, Clone, PartialEq, Eq)]
pub enum FormatError {
    /// The path has no extension.
    NoExtension,
    /// The extension, in lower case, is not one of the supported ones.
    Unsupported(String),
}

/// The format that an extension, already in lower case, stands for.
pub open spec fn format_named(extension: Seq<char>) -> Option<FileFormat> {
    if extension == "csv"@ {
        Some(FileFormat::Csv)
    } else if extension == "json"@ {
        Some(FileFormat::Json)
    } else if extension == "parquet"@ {
        Some(FileFormat::Parquet)
    } else {
        None
    }
}

/// The format that an extension, already in lower case, stands for.
pub fn format_for(extension: &str) -> (format: Option<FileFormat>)
    ensures
        format == format_named(extension@),
{
    if same_text(extension, "csv") {
        Some(FileFormat::Csv)
    } else if same_text(extension, "json") {
        Some(FileFormat::Json)
    } else if same_text(extension, "parquet") {
        Some(FileFormat::Parquet)
    } else {
        None
    }
}

impl FormatError {
    /// The error as a sentence.
    pub fn message(&self) -> (text: String)
        ensures
            text@ == match self {
                FormatError::NoExtension => "No file extension found"@,
                FormatError::Unsupported(extension) => "Unsupported file format: "@ + extension@,
            },
    {
        match self {
            FormatError::NoExtension => "No file extension found".to_owned(),
            FormatError::Unsupported(extension) => {
                let mut text = "Unsupported file format: ".to_owned();
                text.append(extension.as_str());
                text
            },
        }
    }
}

impl FileFormat {
    /// The format for an extension as `Path::extension` gives it. Letter
    /// case does not count.
    pub fn from_extension_text(extension: Option<String>) -> (format: Result<Self, FormatError>)
        ensures
            match format {
                Ok(found) => extension is Some && format_named(lowercased(extension->0@)) == Some(
                    found,
                ),
                Err(FormatError::NoExtension) => extension is None,
                Err(FormatError::Unsupported(name)) => extension is Some && name@ == lowercased(
                    extension->0@,
                ) && format_named(name@) is None,
            },
    {
        match extension {
            Some(text) => {
                let lower = lowercase_text(text.as_str());
                match format_for(lower.as_str()) {
                    Some(format) => Ok(format),
                    None => Err(FormatError::Unsupported(lower)),
                }
            },
            None => Err(FormatError::NoExtension),
        }
    }

    /// Detects the format of a file from the extension of its path.
    pub fn from_extension(path: &Path) -> (format: Result<Self, FormatError>)
        ensures
            match format {
                Ok(found) => extension_of(path) is Some && format_named(
                    lowercased(extension_of(path)->0),
                ) == Some(found),
                Err(FormatError::NoExtension) => extension_of(path) is None,
                Err(FormatError::Unsupported(name)) => extension_of(path) is Some && name@
                    == lowercased(extension_of(path)->0) && format_named(name@) is None,
            },
    {
        Self::from_extension_text(extension_text(path))
    }

    /// The name of the format.
    pub fn as_str(&self) -> (name: &'static str)
        ensures
            name@ == match self {
                FileFormat::Csv => "CSV"@,
                FileFormat::Json => "JSON"@,
                FileFormat::Parquet => "Parquet"@,
            },
    {
        match self {
            FileFormat::Csv => "CSV",
            FileFormat::Json => "JSON",
            FileFormat::Parquet => "Parquet",
        }
    }
}

/// The function of the engine that reads files of a format.
pub open spec fn reader_for(format: FileFormat) -> Seq<char> {
    match format {
        FileFormat::Csv => "read_csv_auto"@,
        FileFormat::Json => "read_json_auto"@,
        FileFormat::Parquet => "read_parquet"@,
    }
}

/// The function of the engine that reads files of a format.
pub fn reader_name(format: FileFormat) -> (name: &'static str)
    ensures
        name@ == reader_for(format),
{
    match format {
        FileFormat::Csv => "read_csv_auto",
        FileFormat::Json => "read_json_auto",
        FileFormat::Parquet => "read_parquet",
    }
}

/// Writes the statement that makes a table of what a file holds, leaving
/// the detection of the schema to the engine.
pub fn import_query(format: FileFormat, table_name: &str, file_path: &str) -> (query: String)
    ensures
        query@ == "CREATE TABLE "@ + table_name@ + " AS SELECT * FROM "@ + reader_for(format)
            + "('"@ + file_path@ + "')"@,
{
    let mut query = "CREATE TABLE ".to_owned();
    query.append(table_name);
    query.append(" AS SELECT * FROM ");
    query.append(reader_name(format));
    query.append("('");
    query.append(file_path);
    query.append("')");
    query
}

/// Writes the statement that describes the columns of a file without
/// importing it.
pub fn detect_schema_query(format: FileFormat, file_path: &str) -> (query: String)
    ensures
        query@ == "DESCRIBE SELECT * FROM "@ + reader_for(format) + "('"@ + file_path@ + "')"@,
{
    let mut query = "DESCRIBE SELECT * FROM ".to_owned();
    query.append(reader_name(format));
    query.append("('");
    query.append(file_path);
    query.append("')");
    query
}

/// What schema detection tells of one column.
#[derive(Debug, Clone)]
pub struct ColumnInfo {
    pub name: String,
    pub data_type: String,
    pub is_null: String,
    pub key: Option<String>,
    pub default: Option<String>,
    pub extra: Option<String>,
}

} // verus!
