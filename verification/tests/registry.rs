use ducky::import::{detect_schema_query, import_query, reader_name, FileFormat};
use ducky::query::{
    column_names_query, describe_table_query, drop_table_query, limit_query,
    summarize_table_query, table_columns_query, table_count_query, table_preview_query,
    table_preview_query_with_column_order,
};
use ducky::registry::{database_name_for, fresh_database_name, DatabaseRegistry, RegistryError};
use ducky::strings::signed_decimal_text;
use ducky::schema::{DatabaseInfo, TableInfo};

fn database(name: &str, tables: &[&str]) -> DatabaseInfo {
    let mut info = DatabaseInfo::new(name.to_string(), format!("{name}.db"));
    info.tables = tables.iter().map(|t| TableInfo::new(t.to_string())).collect();
    info
}

fn names(registry: &DatabaseRegistry) -> Vec<String> {
    registry.get_databases().iter().map(|d| d.name.clone()).collect()
}

#[test]
fn the_registry_keeps_databases_in_order_of_arrival() {
    let mut registry = DatabaseRegistry::new();
    assert!(registry.get_databases().is_empty());
    assert_eq!(registry.get_current_database(), None);
    assert_eq!(registry.position("a"), None);
    registry.add_database(database("a", &["t"]));
    registry.add_database(database("b", &["u", "v"]));
    registry.add_database(database("a", &[]));
    assert_eq!(names(&registry), vec!["a", "b", "a"]);
    assert_eq!(registry.position("a"), Some(0));
    assert_eq!(registry.position("b"), Some(1));
    assert_eq!(registry.get_database_info("a").map(|d| d.tables.len()), Some(1));
    assert!(registry.get_database_info("c").is_none());
}

#[test]
fn only_a_connected_database_becomes_current() {
    let mut registry = DatabaseRegistry::new();
    registry.add_database(database("a", &["t"]));
    assert_eq!(
        registry.set_current_database("b"),
        Err(RegistryError::NotFound("b".to_string()))
    );
    assert_eq!(registry.get_current_database(), None);
    assert_eq!(registry.set_current_database("a"), Ok(()));
    assert_eq!(registry.get_current_database(), Some(&"a".to_string()));
    assert_eq!(RegistryError::NotFound("b".to_string()).message(), "Database b not found");
    assert_eq!(
        RegistryError::AlreadyConnected("b".to_string()).message(),
        "Database b already connected"
    );
}

#[test]
fn removing_a_database_forgets_it_as_current() {
    let mut registry = DatabaseRegistry::new();
    registry.add_database(database("a", &[]));
    registry.add_database(database("b", &[]));
    registry.add_database(database("a", &[]));
    registry.add_database(database("c", &[]));
    registry.set_current_database("b").unwrap();
    assert_eq!(registry.remove_database("x"), Err(RegistryError::NotFound("x".to_string())));
    assert_eq!(registry.remove_database("a"), Ok(()));
    assert_eq!(names(&registry), vec!["b", "c"]);
    assert_eq!(registry.get_current_database(), Some(&"b".to_string()));
    assert_eq!(registry.remove_database("b"), Ok(()));
    assert_eq!(names(&registry), vec!["c"]);
    assert_eq!(registry.get_current_database(), None);
    assert_eq!(registry.remove_database("b"), Err(RegistryError::NotFound("b".to_string())));
}

#[test]
fn tables_are_replaced_and_told_to_the_controller() {
    let mut registry = DatabaseRegistry::new();
    registry.add_database(database("a", &["t"]));
    registry.add_database(database("b", &["u", "v"]));
    let told = registry.catalog(false);
    assert_eq!(told.databases, vec!["a", "b"]);
    assert_eq!(told.current_database, None);
    assert!(!told.connected);
    assert!(told.tables.is_empty());
    registry.set_current_database("b").unwrap();
    let told = registry.catalog(true);
    assert_eq!(told.current_database, Some("b".to_string()));
    assert!(told.connected);
    assert_eq!(told.tables, vec!["u", "v"]);
    assert_eq!(registry.set_tables("b", vec![TableInfo::new("w".to_string())]), Ok(()));
    assert_eq!(registry.catalog(true).tables, vec!["w"]);
    assert_eq!(registry.get_databases()[1].path, "b.db");
    assert_eq!(registry.get_databases()[0].tables.len(), 1);
    assert_eq!(
        registry.set_tables("z", Vec::new()),
        Err(RegistryError::NotFound("z".to_string()))
    );
    registry.current_database = Some("gone".to_string());
    assert!(registry.catalog(true).tables.is_empty());
}

#[test]
fn a_file_is_connected_under_its_name() {
    let mut registry = DatabaseRegistry::new();
    registry.add_database(database("shop.db", &[]));
    assert_eq!(registry.name_for_file(Some("new.db".to_string())), Ok("new.db".to_string()));
    assert_eq!(registry.name_for_file(None), Ok("unknown".to_string()));
    assert_eq!(
        registry.name_for_file(Some("shop.db".to_string())),
        Err(RegistryError::AlreadyConnected("shop.db".to_string()))
    );
    registry.add_database(database("unknown", &[]));
    assert_eq!(
        registry.name_for_file(None),
        Err(RegistryError::AlreadyConnected("unknown".to_string()))
    );
}

#[test]
fn queries_are_written_for_the_engine() {
    assert_eq!(limit_query("SELECT * FROM t", 50), "SELECT * FROM t LIMIT 50");
    assert_eq!(limit_query("SELECT * FROM t limit 3", 50), "SELECT * FROM t limit 3");
    assert_eq!(limit_query("  SELECT * FROM t LiMiT 3  ", 50), "  SELECT * FROM t LiMiT 3  ");
    assert_eq!(limit_query("SELECT limits FROM t", 5), "SELECT limits FROM t");
    assert_eq!(limit_query("", 0), " LIMIT 0");
    assert_eq!(table_preview_query("t", 100), "SELECT * FROM t LIMIT 100");
    let columns = vec!["a".to_string(), "b".to_string(), "c".to_string()];
    assert_eq!(
        table_preview_query_with_column_order("t", &[2, 0, 7, 2], &columns, 10),
        "SELECT c, a, c FROM t LIMIT 10"
    );
    assert_eq!(
        table_preview_query_with_column_order("t", &[], &columns, 10),
        "SELECT * FROM t LIMIT 10"
    );
    assert_eq!(
        table_preview_query_with_column_order("t", &[1], &[], 10),
        "SELECT * FROM t LIMIT 10"
    );
    assert_eq!(
        table_preview_query_with_column_order("t", &[3, 4], &columns, 10),
        "SELECT * FROM t LIMIT 10"
    );
    assert_eq!(table_count_query("t"), "SELECT COUNT(*) FROM t");
    assert_eq!(
        table_columns_query("t"),
        "SELECT column_name, data_type, is_nullable, column_default \n             FROM information_schema.columns \n             WHERE table_name = 't' \n             ORDER BY ordinal_position"
    );
    assert_eq!(column_names_query("t"), "SELECT * FROM t LIMIT 0");
    assert_eq!(describe_table_query("t"), "DESCRIBE t");
    assert_eq!(summarize_table_query("t"), "SUMMARIZE t");
    assert_eq!(drop_table_query("t"), "DROP TABLE IF EXISTS t");
    assert_eq!(
        import_query(FileFormat::Csv, "t", "/d/a.csv"),
        "CREATE TABLE t AS SELECT * FROM read_csv_auto('/d/a.csv')"
    );
    assert_eq!(
        import_query(FileFormat::Json, "t", "a.json"),
        "CREATE TABLE t AS SELECT * FROM read_json_auto('a.json')"
    );
    assert_eq!(
        detect_schema_query(FileFormat::Parquet, "a.parquet"),
        "DESCRIBE SELECT * FROM read_parquet('a.parquet')"
    );
    assert_eq!(reader_name(FileFormat::Csv), "read_csv_auto");
}

#[test]
fn a_database_without_a_name_is_named_after_its_second() {
    assert_eq!(database_name_for(1431648000), "new_db_1431648000");
    assert_eq!(database_name_for(0), "new_db_0");
    assert_eq!(database_name_for(-5), "new_db_-5");
    assert_eq!(signed_decimal_text(i64::MIN), i64::MIN.to_string());
    assert_eq!(signed_decimal_text(i64::MAX), i64::MAX.to_string());
}

#[test]
fn a_fresh_database_is_named_after_the_present_second() {
    let name = fresh_database_name();
    let second: i64 = name.strip_prefix("new_db_").unwrap().parse().unwrap();
    assert!(second > 1_600_000_000);
    assert_eq!(database_name_for(second), name);
}
