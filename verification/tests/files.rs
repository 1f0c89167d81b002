use ducky::actions::{Action, DatabaseType};
use ducky::controller::Key;
use ducky::files::{
    detect_file_type, sort_by_name, BrowserStep, FileBrowser, FileItem, FileType,
};
use ducky::import::FileFormat;
use ducky::query::{build_filter_query, QueryResult};
use ducky::schema::{ColumnSchema, DatabaseInfo, DatabaseSchema, TableInfo, TableSchema};
use std::path::{Path, PathBuf};

fn item(path: &str, is_directory: bool) -> FileItem {
    FileItem::new(PathBuf::from(path), is_directory)
}

fn listed(browser: &FileBrowser) -> Vec<String> {
    browser.items.iter().map(|i| i.name.clone()).collect()
}

#[test]
fn files_are_told_apart_by_extension() {
    assert_eq!(detect_file_type(Path::new("a.db")), Some(FileType::Database));
    assert_eq!(detect_file_type(Path::new("a.DuckDB")), Some(FileType::Database));
    assert_eq!(detect_file_type(Path::new("x/y.sqlite")), Some(FileType::Database));
    assert_eq!(detect_file_type(Path::new("a.sqlite3")), Some(FileType::Database));
    assert_eq!(detect_file_type(Path::new("a.csv")), Some(FileType::DataFile(FileFormat::Csv)));
    assert_eq!(detect_file_type(Path::new("a.JSON")), Some(FileType::DataFile(FileFormat::Json)));
    assert_eq!(
        detect_file_type(Path::new("a.b.parquet")),
        Some(FileType::DataFile(FileFormat::Parquet))
    );
    assert_eq!(detect_file_type(Path::new("a.txt")), None);
    assert_eq!(detect_file_type(Path::new("csv")), None);
    assert_eq!(detect_file_type(Path::new(".csv")), None);
    assert_eq!(detect_file_type(Path::new("dir.csv/")), Some(FileType::DataFile(FileFormat::Csv)));
    assert_eq!(detect_file_type(Path::new("")), None);
}

#[test]
fn entries_show_their_kind() {
    let dir = item("/data/sub.db", true);
    assert_eq!(dir.name, "sub.db");
    assert_eq!(dir.file_type, None);
    assert_eq!(dir.get_display_name(), "📁 sub.db/");
    assert_eq!(dir.get_icon(), "📁");
    let db = item("/data/shop.duckdb", false);
    assert_eq!(db.file_type, Some(FileType::Database));
    assert_eq!(db.get_display_name(), "🗃️  shop.duckdb");
    assert_eq!(db.get_icon(), "🗃️");
    assert_eq!(item("rows.csv", false).get_display_name(), "📊 rows.csv");
    assert_eq!(item("rows.json", false).get_display_name(), "📋 rows.json");
    assert_eq!(item("rows.parquet", false).get_display_name(), "📦 rows.parquet");
    assert_eq!(item("rows.parquet", false).get_icon(), "📦");
    let other = item("notes.txt", false);
    assert_eq!(other.get_display_name(), "📄 notes.txt");
    assert_eq!(other.get_icon(), "📄");
    assert_eq!(item("/", true).name, "");
    assert_eq!(item("a/..", true).name, "");
}

#[test]
fn the_listing_puts_directories_first_and_sorts_by_name() {
    let mut browser = FileBrowser::new(PathBuf::from("/home/user"));
    assert!(browser.items.is_empty());
    assert_eq!(browser.get_selected_item().map(|i| i.name.clone()), None);
    browser.selected_index = 3;
    browser.set_listing(vec![
        item("/home/user/zeta.csv", false),
        item("/home/user/beta", true),
        item("/home/user/.config", true),
        item("/home/user/Alpha.db", false),
        item("/home/user/alpha", true),
        item("/home/user/.hidden.csv", false),
        item("/home/user/b.json", false),
        item("/home/user/Zed", true),
    ]);
    assert_eq!(listed(&browser), vec!["..", "Zed", "alpha", "beta", "Alpha.db", "b.json", "zeta.csv"]);
    assert_eq!(browser.selected_index, 0);
    assert_eq!(browser.items[0].path, PathBuf::from("/home"));
    assert!(browser.items[0].is_directory);
    assert_eq!(browser.get_selected_path(), Some(PathBuf::from("/home")));
    browser.show_hidden = true;
    browser.set_listing(vec![item("/home/user/.b", false), item("/home/user/.a", true), item("/home/user/a", false)]);
    assert_eq!(listed(&browser), vec!["..", ".a", ".b", "a"]);
    let mut root = FileBrowser::new(PathBuf::from("/"));
    root.set_listing(vec![item("/b", false), item("/a", false)]);
    assert_eq!(listed(&root), vec!["a", "b"]);
    assert_eq!(root.navigate_up(), None);
    assert_eq!(browser.navigate_up(), Some(PathBuf::from("/home")));
    let names: Vec<String> = sort_by_name(vec![
        item("b", false),
        item("é", false),
        item("a", false),
        item("B", false),
        item("ab", false),
        item("z", false),
        item("a", true),
    ])
    .into_iter()
    .map(|i| i.name)
    .collect();
    assert_eq!(names, vec!["B", "a", "a", "ab", "b", "z", "é"]);
}

#[test]
fn the_file_browser_answers_to_keys() {
    let mut browser = FileBrowser::new(PathBuf::from("/home/user"));
    assert!(matches!(browser.handle_key(Key::Enter), BrowserStep::Stay));
    assert!(matches!(browser.handle_key(Key::Down), BrowserStep::Stay));
    assert_eq!(browser.selected_index, 0);
    browser.set_listing(vec![
        item("/home/user/notes.txt", false),
        item("/home/user/data", true),
        item("/home/user/rows.csv", false),
    ]);
    match browser.handle_key(Key::Enter) {
        BrowserStep::Open(path) => assert_eq!(path, PathBuf::from("/home")),
        other => panic!("unexpected step {:?}", other),
    }
    assert!(matches!(browser.handle_key(Key::Char('j')), BrowserStep::Stay));
    match browser.handle_key(Key::Enter) {
        BrowserStep::Open(path) => assert_eq!(path, PathBuf::from("/home/user/data")),
        other => panic!("unexpected step {:?}", other),
    }
    browser.handle_key(Key::Down);
    assert!(matches!(browser.handle_key(Key::Enter), BrowserStep::Stay));
    browser.handle_key(Key::Down);
    browser.handle_key(Key::Down);
    assert_eq!(browser.selected_index, 3);
    match browser.handle_key(Key::Enter) {
        BrowserStep::Choose(path) => assert_eq!(path, PathBuf::from("/home/user/rows.csv")),
        other => panic!("unexpected step {:?}", other),
    }
    browser.handle_key(Key::Up);
    browser.handle_key(Key::Char('k'));
    assert_eq!(browser.selected_index, 1);
    assert!(matches!(browser.handle_key(Key::Char('r')), BrowserStep::Reload));
    assert!(matches!(browser.handle_key(Key::Backspace), BrowserStep::OpenParent));
    assert!(matches!(browser.handle_key(Key::Char('?')), BrowserStep::Stay));
    assert!(matches!(browser.handle_key(Key::Tab), BrowserStep::Stay));
    assert!(!browser.navigate_to(PathBuf::from("/home/user/rows.csv"), false));
    assert_eq!(browser.current_path, PathBuf::from("/home/user"));
    assert!(browser.navigate_to(PathBuf::from("/home/user/data"), true));
    assert_eq!(browser.current_path, PathBuf::from("/home/user/data"));
}

#[test]
fn schemas_collect_tables_views_and_columns() {
    let table = TableInfo::new("users".to_string());
    assert!(table.is_table());
    assert!(!table.is_view());
    assert_eq!(table.table_type, "BASE TABLE");
    assert_eq!(table.column_count, 0);
    assert_eq!(table.estimated_size, None);
    assert_eq!(table.get_display_name(), "📋 users");
    let mut view = TableInfo::new("recent".to_string());
    view.table_type = "VIEW".to_string();
    assert!(view.is_view());
    assert_eq!(view.get_display_name(), "📊 recent");
    let mut schema = DatabaseSchema::new("main".to_string());
    assert_eq!(schema.table_count(), 0);
    schema.add_table(table);
    schema.add_table(view);
    schema.add_table(TableInfo::new("recent".to_string()));
    assert_eq!(schema.table_count(), 3);
    assert_eq!((schema.tables.len(), schema.views.len()), (2, 1));
    let all: Vec<&str> = schema.get_all_tables().iter().map(|t| t.name.as_str()).collect();
    assert_eq!(all, vec!["users", "recent", "recent"]);
    assert_eq!(schema.find_table("recent").map(|t| t.table_type.as_str()), Some("BASE TABLE"));
    assert!(schema.find_table("nope").is_none());
    schema.tables.pop();
    assert_eq!(schema.find_table("recent").map(|t| t.table_type.as_str()), Some("VIEW"));
    let memory = DatabaseInfo::new("m".to_string(), ":memory:".to_string());
    assert!(memory.is_memory && memory.tables.is_empty());
    assert!(DatabaseInfo::new("m".to_string(), String::new()).is_memory);
    assert!(!DatabaseInfo::new("f".to_string(), "a.db".to_string()).is_memory);
    let mut id = ColumnSchema::new("id".to_string(), "INTEGER".to_string());
    assert_eq!(id.get_display_type(), "INTEGER");
    assert_eq!(id.get_icon(), "🔢");
    id.is_primary_key = true;
    id.is_nullable = false;
    assert_eq!(id.get_display_type(), "INTEGER PK NOT NULL");
    let mut owner = ColumnSchema::new("owner".to_string(), "VarChar".to_string());
    owner.is_foreign_key = true;
    assert_eq!(owner.get_display_type(), "VarChar FK");
    assert_eq!(owner.get_icon(), "📝");
    assert_eq!(ColumnSchema::new("x".to_string(), "DOUBLE".to_string()).get_icon(), "💰");
    assert_eq!(ColumnSchema::new("x".to_string(), "bool".to_string()).get_icon(), "✅");
    assert_eq!(ColumnSchema::new("x".to_string(), "Timestamp".to_string()).get_icon(), "📅");
    assert_eq!(ColumnSchema::new("x".to_string(), "BLOB".to_string()).get_icon(), "📦");
    assert_eq!(ColumnSchema::new("x".to_string(), "uuid".to_string()).get_icon(), "❓");
    let mut table = TableSchema::new(TableInfo::new("t".to_string()));
    table.add_column(owner);
    table.add_column(id);
    table.add_column(ColumnSchema::new("note".to_string(), "text".to_string()));
    let keys: Vec<&str> = table.get_primary_key_columns().iter().map(|c| c.name.as_str()).collect();
    assert_eq!(keys, vec!["id"]);
    let keys: Vec<&str> = table.get_foreign_key_columns().iter().map(|c| c.name.as_str()).collect();
    assert_eq!(keys, vec!["owner"]);
}

#[test]
fn filter_queries_match_by_value_or_by_pattern() {
    let none: Vec<(String, String)> = Vec::new();
    assert_eq!(build_filter_query("t", &none, None), "SELECT * FROM t");
    assert_eq!(build_filter_query("t", &none, Some(0)), "SELECT * FROM t LIMIT 0");
    let filters = vec![
        ("name".to_string(), "Jo%".to_string()),
        ("city".to_string(), "Rome".to_string()),
    ];
    assert_eq!(
        build_filter_query("people", &filters, Some(250)),
        "SELECT * FROM people WHERE name LIKE 'Jo%' AND city = 'Rome' LIMIT 250"
    );
    assert_eq!(
        build_filter_query("people", &filters[1..].to_vec(), None),
        "SELECT * FROM people WHERE city = 'Rome'"
    );
    let empty = QueryResult::new();
    assert!(empty.columns.is_empty() && empty.rows.is_empty());
    assert_eq!((empty.row_count, empty.execution_time_ms), (0, 0));
}

#[test]
fn actions_are_told_in_words() {
    let s = |t: &str| t.to_string();
    assert_eq!(
        Action::ConnectToDatabase { database_name: s("shop"), path: s("/d/shop.db") }.describe(),
        "Connect to database 'shop' at '/d/shop.db'"
    );
    assert_eq!(
        Action::DisconnectFromDatabase { database_name: s("shop") }.describe(),
        "Disconnect from database 'shop'"
    );
    assert_eq!(
        Action::CreateNewDatabase { database_name: s("n"), database_type: DatabaseType::InMemory }
            .describe(),
        "Create new database 'n' (InMemory)"
    );
    assert_eq!(
        Action::CreateNewDatabase {
            database_name: s("n"),
            database_type: DatabaseType::File(PathBuf::from("a \"b\".db"))
        }
        .describe(),
        "Create new database 'n' (File(\"a \\\"b\\\".db\"))"
    );
    assert_eq!(
        Action::SaveDatabase { database_name: s("shop"), file_path: s("out.db") }.describe(),
        "Save database 'shop' to 'out.db'"
    );
    assert_eq!(Action::SelectDatabase { database_name: s("shop") }.describe(), "Select database 'shop'");
    assert_eq!(Action::SelectTable { table_name: s("t") }.describe(), "Select table 't'");
    assert_eq!(Action::RefreshTables.describe(), "Refresh tables");
    assert_eq!(Action::SelectFile { path: s("a.csv") }.describe(), "Select file 'a.csv'");
    assert_eq!(Action::ExecuteQuery { query: s("SELECT 1") }.describe(), "Execute query: SELECT 1");
    assert_eq!(
        Action::ImportData { source_path: s("a.csv"), format: s("CSV"), destination_table: s("t") }
            .describe(),
        "Import CSV data from 'a.csv' to table 't'"
    );
    assert_eq!(
        Action::ExportData { source_table: s("t"), destination_path: s("a.json"), format: s("JSON") }
            .describe(),
        "Export table 't' to 'a.json' as JSON"
    );
    assert_eq!(DatabaseType::InMemory.describe(), "InMemory");
}
