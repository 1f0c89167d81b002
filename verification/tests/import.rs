use ducky::import::{FileFormat, FormatError};
use std::path::Path;

#[test]
fn test_format_detection() {
    assert_eq!(FileFormat::from_extension(Path::new("test.csv")).unwrap(), FileFormat::Csv);
    assert_eq!(FileFormat::from_extension(Path::new("test.json")).unwrap(), FileFormat::Json);
    assert_eq!(FileFormat::from_extension(Path::new("test.parquet")).unwrap(), FileFormat::Parquet);
    assert!(FileFormat::from_extension(Path::new("test.txt")).is_err());
}

#[test]
fn test_format_strings() {
    assert_eq!(FileFormat::Csv.as_str(), "CSV");
    assert_eq!(FileFormat::Json.as_str(), "JSON");
    assert_eq!(FileFormat::Parquet.as_str(), "Parquet");
}

#[test]
fn format_detection_ignores_letter_case() {
    assert_eq!(FileFormat::from_extension(Path::new("DATA.CSV")).unwrap(), FileFormat::Csv);
    assert_eq!(FileFormat::from_extension(Path::new("a/b/Data.Json")).unwrap(), FileFormat::Json);
}

#[test]
fn format_detection_names_its_errors() {
    assert_eq!(FileFormat::from_extension(Path::new("README")), Err(FormatError::NoExtension));
    assert_eq!(FileFormat::from_extension(Path::new(".hidden")), Err(FormatError::NoExtension));
    assert_eq!(
        FileFormat::from_extension(Path::new("notes.TXT")),
        Err(FormatError::Unsupported("txt".to_string()))
    );
    assert_eq!(FormatError::NoExtension.message(), "No file extension found");
    assert_eq!(
        FormatError::Unsupported("txt".to_string()).message(),
        "Unsupported file format: txt"
    );
}
