use ducky::controller::actions::Edge;
use ducky::controller::data::LoadError;
use ducky::controller::{App, Catalog, Command, InputOwner, Key, Refresh};
use ducky::focus::{DeleteConfirmationState, NavigationPanel, TableCreationStep};
use ducky::notify::NotificationType;
use ducky::query::QueryResult;
use std::path::Path;

fn names(list: &[&str]) -> Vec<String> {
    list.iter().map(|s| s.to_string()).collect()
}

fn catalog() -> Catalog {
    Catalog {
        databases: names(&["memory", "shop"]),
        current_database: Some("memory".to_string()),
        connected: true,
        tables: names(&["t", "u"]),
    }
}

fn nothing() -> Catalog {
    Catalog { databases: Vec::new(), current_database: None, connected: false, tables: Vec::new() }
}

fn rows(columns: &[&str], count: usize) -> QueryResult {
    QueryResult {
        columns: names(columns),
        rows: (0..count).map(|r| columns.iter().map(|c| format!("{c}{r}")).collect()).collect(),
        row_count: count,
        execution_time_ms: 1,
    }
}

fn press(app: &mut App, keys: &str) -> Vec<Command> {
    let mut commands = Vec::new();
    for c in keys.chars() {
        commands = app.handle_key(Key::Char(c), &catalog());
    }
    commands
}

fn load(app: &mut App, commands: Vec<Command>, columns: &[&str], count: usize) -> String {
    assert_eq!(commands.len(), 1);
    let purpose = match &commands[0] {
        Command::LoadColumns { table, purpose } => {
            assert_eq!(table, "t");
            *purpose
        }
        other => panic!("unexpected command {:?}", other),
    };
    let next = app.columns_loaded(purpose, Ok(names(&["id", "name", "age"])));
    assert_eq!(next.len(), 1);
    match &next[0] {
        Command::RunQuery { sql, purpose: again, row_cap } => {
            assert_eq!(*again, purpose);
            assert_eq!(*row_cap, purpose.row_cap());
            app.query_finished(purpose, Ok(rows(columns, count)));
            sql.clone()
        }
        other => panic!("unexpected command {:?}", other),
    }
}

fn viewing_table() -> App {
    let mut app = App::new();
    app.state.select_database("memory".to_string());
    press(&mut app, "2");
    let commands = app.handle_key(Key::Enter, &catalog());
    let sql = load(&mut app, commands, &["id", "name", "age"], 3);
    assert_eq!(sql, "SELECT id, name, age FROM t");
    app
}

#[test]
fn entering_a_table_loads_it_and_shows_it() {
    let app = viewing_table();
    assert_eq!(app.state.selected_table, Some("t".to_string()));
    assert_eq!(app.state.active_panel, NavigationPanel::MainContent);
    assert_eq!(app.state.last_left_panel, NavigationPanel::TableList);
    assert_eq!(app.selected_table_index, 0);
    assert_eq!(app.state.table_data.as_ref().unwrap().row_count, 3);
    assert_eq!(app.state.get_virtual_column_order(), names(&["id", "name", "age"]));
    assert_eq!(app.state.selected_column, None);
}

#[test]
fn hide_sort_and_unsort_rebuild_the_query() {
    let mut app = viewing_table();
    press(&mut app, "lll");
    assert_eq!(app.state.selected_column, Some("age".to_string()));
    press(&mut app, "m");
    assert!(app.state.is_modifying);
    let commands = press(&mut app, "o");
    assert_eq!(app.state.get_visible_column_names(), names(&["id", "name"]));
    assert_eq!(app.state.selected_column, Some("name".to_string()));
    assert_eq!(load(&mut app, commands, &["id", "name"], 3), "SELECT id, name FROM t");
    assert!(app.handle_key(Key::Enter, &catalog()).is_empty());
    assert!(!app.state.is_modifying);
    let commands = press(&mut app, "a");
    assert_eq!(app.state.generate_view_sql("t"), Some("SELECT id, name FROM t ORDER BY name ASC".to_string()));
    assert_eq!(
        load(&mut app, commands, &["id", "name"], 3),
        "SELECT id, name FROM t ORDER BY name ASC"
    );
    let commands = press(&mut app, "a");
    assert!(app.state.sort_columns.is_empty());
    assert_eq!(app.state.generate_view_sql("t"), Some("SELECT id, name FROM t".to_string()));
    assert_eq!(load(&mut app, commands, &["id", "name"], 3), "SELECT id, name FROM t");
}

#[test]
fn a_change_of_layout_keeps_the_rows_and_a_change_of_sort_does_not() {
    let mut app = viewing_table();
    press(&mut app, "ll");
    app.handle_key(Key::Down, &catalog());
    app.handle_key(Key::Down, &catalog());
    app.state.scroll_y = 1;
    app.state.scroll_x = 1;
    assert_eq!(app.state.selected_row, 2);
    press(&mut app, "m");
    let commands = press(&mut app, "H");
    assert_eq!(app.state.get_virtual_column_order(), names(&["name", "id", "age"]));
    assert_eq!(
        load(&mut app, commands, &["name", "id", "age"], 3),
        "SELECT name, id, age FROM t"
    );
    assert_eq!((app.state.selected_row, app.state.scroll_y), (2, 1));
    assert_eq!(app.state.selected_column, Some("name".to_string()));
    assert_eq!(app.state.scroll_x, 0);
    let commands = press(&mut app, "l");
    assert_eq!(app.state.get_virtual_column_order(), names(&["id", "name", "age"]));
    load(&mut app, commands, &["id", "name", "age"], 3);
    assert_eq!((app.state.selected_row, app.state.scroll_y), (2, 1));
    app.handle_key(Key::Enter, &catalog());
    app.state.scroll_x = 1;
    let commands = press(&mut app, "A");
    assert_eq!(
        load(&mut app, commands, &["id", "name", "age"], 3),
        "SELECT id, name, age FROM t ORDER BY name DESC"
    );
    assert_eq!((app.state.selected_row, app.state.scroll_y), (0, 0));
    assert_eq!(app.state.selected_column, Some("name".to_string()));
    assert_eq!(app.state.scroll_x, 1);
}

#[test]
fn cancelling_the_modify_mode_puts_the_columns_back() {
    let mut app = viewing_table();
    press(&mut app, "l");
    press(&mut app, "m");
    let commands = press(&mut app, "L");
    assert_eq!(app.state.get_virtual_column_order(), names(&["name", "age", "id"]));
    load(&mut app, commands, &["name", "age", "id"], 3);
    let commands = press(&mut app, "h");
    assert_eq!(app.state.get_virtual_column_order(), names(&["name", "id", "age"]));
    load(&mut app, commands, &["name", "id", "age"], 3);
    let commands = app.handle_key(Key::Esc, &catalog());
    assert!(!app.state.is_modifying);
    assert_eq!(app.state.get_virtual_column_order(), names(&["id", "name", "age"]));
    assert_eq!(
        load(&mut app, commands, &["id", "name", "age"], 3),
        "SELECT id, name, age FROM t"
    );
    assert!(press(&mut app, "h").is_empty());
    assert_eq!(app.state.get_virtual_column_order(), names(&["id", "name", "age"]));
}

#[test]
fn a_filter_is_typed_checked_and_committed() {
    let mut app = viewing_table();
    press(&mut app, "ll");
    assert!(press(&mut app, "f").is_empty());
    assert!(matches!(app.input_owner(), InputOwner::Search));
    assert_eq!(app.state.search_column, Some(1));
    let commands = press(&mut app, "=");
    assert_eq!(
        commands,
        vec![Command::CheckFilter { sql: "SELECT COUNT(*) FROM t WHERE name =".to_string() }]
    );
    app.filter_checked(Some(false));
    assert!(!app.state.search_syntax_valid);
    assert!(app.handle_key(Key::Enter, &catalog()).is_empty());
    assert!(app.state.is_searching);
    let commands = press(&mut app, " 'x'");
    assert_eq!(
        commands,
        vec![Command::CheckFilter { sql: "SELECT COUNT(*) FROM t WHERE name = 'x'".to_string() }]
    );
    app.filter_checked(None);
    assert!(app.state.search_syntax_valid);
    assert!(app.search_pause_checked(false).is_empty());
    let preview = app.search_pause_checked(true);
    assert!(app.state.search_debounce_timer.is_none());
    assert_eq!(
        load(&mut app, preview, &["id", "name", "age"], 1),
        "SELECT id, name, age FROM t WHERE name = 'x'"
    );
    assert!(app.state.column_filters.is_empty());
    assert!(app.check_search_debounce().is_empty());
    let commands = app.handle_key(Key::Backspace, &catalog());
    assert_eq!(
        commands,
        vec![Command::CheckFilter { sql: "SELECT COUNT(*) FROM t WHERE name = 'x".to_string() }]
    );
    app.filter_checked(Some(true));
    let commands = app.handle_key(Key::Enter, &catalog());
    assert!(!app.state.is_searching);
    assert_eq!(app.state.column_filters, vec![("name".to_string(), "= 'x".to_string())]);
    assert_eq!(
        load(&mut app, commands, &["id", "name", "age"], 1),
        "SELECT id, name, age FROM t WHERE name = 'x"
    );
    let commands = press(&mut app, "f   ");
    assert!(commands.is_empty());
    assert!(app.state.search_syntax_valid);
    assert!(app.search_pause_checked(true).is_empty());
    assert!(app.handle_key(Key::Esc, &catalog()).is_empty());
    let commands = press(&mut app, "F");
    assert!(app.state.column_filters.is_empty());
    assert_eq!(load(&mut app, commands, &["id", "name", "age"], 3), "SELECT id, name, age FROM t");
    app.state.column_filters.push(("id".to_string(), "> 0".to_string()));
    press(&mut app, "a");
    let commands = press(&mut app, "c");
    assert!(app.state.column_filters.is_empty());
    assert!(app.state.sort_columns.is_empty());
    assert_eq!(
        load(&mut app, commands, &["id", "name", "age"], 3),
        "SELECT id, name, age FROM t"
    );
}

#[test]
fn a_failed_query_leaves_the_table_as_it_was() {
    let mut app = viewing_table();
    press(&mut app, "l");
    app.state.selected_row = 1;
    let commands = press(&mut app, "a");
    assert_eq!(commands.len(), 1);
    assert!(app.columns_loaded(Refresh::Rows { limit: true }, Err(LoadError::NoConnection)).is_empty());
    assert_eq!(app.state.notifications.last().unwrap().message, "No database connection available");
    assert!(app
        .columns_loaded(Refresh::Rows { limit: true }, Err(LoadError::Failed("boom".to_string())))
        .is_empty());
    assert_eq!(app.state.notifications.last().unwrap().message, "Failed to get column names: boom");
    app.query_finished(Refresh::Rows { limit: true }, Err("no such table".to_string()));
    let last = app.state.notifications.last().unwrap();
    assert_eq!(last.message, "Failed to load table data: no such table");
    assert_eq!(last.notification_type, NotificationType::Error);
    assert_eq!(app.state.selected_row, 1);
    assert_eq!(app.state.table_data.as_ref().unwrap().row_count, 3);
    app.state.selected_table = None;
    assert!(app.begin_fetch(Refresh::Initial).is_empty());
    assert_eq!(app.state.notifications.last().unwrap().message, "No table selected for data loading");
    assert!(app.columns_loaded(Refresh::Initial, Ok(names(&["a"]))).is_empty());
}

#[test]
fn a_modal_takes_every_key() {
    let mut app = App::new();
    assert!(matches!(app.input_owner(), InputOwner::Panels));
    press(&mut app, "n");
    assert!(matches!(app.input_owner(), InputOwner::DatabaseName));
    assert!(app.handle_key(Key::Tab, &catalog()).is_empty());
    assert_eq!(app.state.active_panel, NavigationPanel::DatabaseList);
    press(&mut app, "q3");
    assert_eq!(app.state.new_database_name, "q3");
    assert_eq!(app.state.active_panel, NavigationPanel::DatabaseList);
    app.handle_key(Key::Backspace, &catalog());
    let commands = app.handle_key(Key::Enter, &catalog());
    assert_eq!(commands, vec![Command::CreateDatabase { name: "q".to_string() }]);
    assert!(matches!(app.input_owner(), InputOwner::Panels));
    press(&mut app, "n ");
    assert!(app.handle_key(Key::Enter, &catalog()).is_empty());
    assert!(app.state.is_entering_database_name);
    app.handle_key(Key::Esc, &catalog());
    assert!(!app.state.is_entering_database_name);
    app.show_file_browser = true;
    app.state.is_searching = true;
    assert!(matches!(app.input_owner(), InputOwner::FileBrowser));
    assert_eq!(app.handle_key(Key::Down, &catalog()), vec![Command::BrowserKey(Key::Down)]);
    assert_eq!(app.handle_key(Key::Esc, &catalog()), vec![Command::CloseFileBrowser]);
    assert!(!app.show_file_browser);
    assert!(matches!(app.input_owner(), InputOwner::Search));
}

#[test]
fn saving_asks_for_a_file_name() {
    let mut app = App::new();
    app.handle_key(Key::Char('s'), &nothing());
    assert!(!app.state.is_entering_save_filename);
    assert_eq!(app.state.notifications[0].message, "No database selected to save");
    press(&mut app, "sout");
    assert_eq!(
        app.handle_key(Key::Enter, &catalog()),
        vec![Command::SaveDatabase { database: "memory".to_string(), file_path: "out.db".to_string() }]
    );
    assert!(!app.state.is_entering_save_filename);
    press(&mut app, "sa.duckdb");
    assert_eq!(
        app.handle_key(Key::Enter, &catalog()),
        vec![Command::SaveDatabase { database: "memory".to_string(), file_path: "a.duckdb".to_string() }]
    );
    press(&mut app, "sb.db");
    assert!(app.handle_key(Key::Enter, &nothing()).is_empty());
    assert!(!app.state.is_entering_save_filename);
    assert_eq!(app.state.notifications.len(), 2);
    app.database_saved("memory".to_string(), "out.db".to_string(), Ok(()));
    assert_eq!(app.state.notifications[2].message, "Saved database 'memory' to 'out.db'");
    app.database_saved("memory".to_string(), "out.db".to_string(), Err("disk full".to_string()));
    assert_eq!(app.state.notifications[3].message, "Failed to save database: disk full");
}

#[test]
fn a_view_is_made_of_what_the_table_shows() {
    let mut app = viewing_table();
    press(&mut app, "l");
    press(&mut app, "a");
    press(&mut app, "v big ");
    assert_eq!(app.state.new_view_name, " big ");
    assert_eq!(
        app.handle_key(Key::Enter, &catalog()),
        vec![Command::CreateView {
            view_name: "big".to_string(),
            sql: "CREATE VIEW big AS SELECT id, name, age FROM t ORDER BY id ASC".to_string()
        }]
    );
    assert!(!app.state.is_entering_view_name);
    press(&mut app, "vx");
    assert!(app.handle_key(Key::Enter, &nothing()).is_empty());
    assert_eq!(
        app.state.notifications.last().unwrap().message,
        "No database connection or table selected"
    );
    app.view_created("big".to_string(), Ok(()));
    assert_eq!(app.state.notifications.last().unwrap().message, "View 'big' created successfully");
    app.view_created("big".to_string(), Err("exists".to_string()));
    assert_eq!(app.state.notifications.last().unwrap().message, "Failed to create view: exists");
    let mut fresh = App::new();
    press(&mut fresh, "v");
    assert!(!fresh.state.is_entering_view_name);
    assert_eq!(fresh.state.notifications[0].message, "No table selected to create view from");
}

#[test]
fn deletions_go_through_the_confirmation_or_round_it() {
    let mut app = App::new();
    app.selected_db_index = 1;
    press(&mut app, "d");
    assert_eq!(app.state.delete_confirmation, DeleteConfirmationState::Database("shop".to_string()));
    press(&mut app, "x");
    assert!(app.state.is_delete_confirmation_active());
    assert_eq!(press(&mut app, "d"), vec![Command::DeleteDatabase { name: "shop".to_string() }]);
    assert!(!app.state.is_delete_confirmation_active());
    app.state.expand_database_dropdown(2);
    assert_eq!(press(&mut app, "D"), vec![Command::DeleteDatabase { name: "memory".to_string() }]);
    press(&mut app, "2");
    app.selected_table_index = 1;
    assert_eq!(press(&mut app, "D"), vec![Command::DeleteTable { name: "u".to_string() }]);
    press(&mut app, "d");
    assert_eq!(app.state.delete_confirmation, DeleteConfirmationState::Table("u".to_string()));
    app.handle_key(Key::Esc, &catalog());
    assert!(!app.state.is_delete_confirmation_active());
    app.selected_table_index = 5;
    assert!(press(&mut app, "D").is_empty());
    press(&mut app, "d");
    assert!(!app.state.is_delete_confirmation_active());
    press(&mut app, "3");
    assert!(press(&mut app, "D").is_empty());
    app.state.select_table("u".to_string());
    app.state.table_data = Some(rows(&["a"], 1));
    let mut after = catalog();
    after.tables = names(&["t"]);
    app.table_deleted("t".to_string(), Ok(()), &after);
    assert_eq!(app.state.selected_table, Some("u".to_string()));
    assert_eq!(app.state.notifications.last().unwrap().message, "Deleted table 't'");
    app.table_deleted("u".to_string(), Err("locked".to_string()), &after);
    assert!(app.state.table_data.is_some());
    assert_eq!(app.state.notifications.last().unwrap().message, "Failed to delete table: locked");
    app.table_deleted("u".to_string(), Ok(()), &after);
    assert_eq!(app.state.selected_table, None);
    assert!(app.state.table_data.is_none());
    app.selected_db_index = 1;
    app.selected_table_index = 1;
    app.database_deleted("shop".to_string(), Err("busy".to_string()), &catalog());
    assert_eq!((app.selected_db_index, app.selected_table_index), (1, 1));
    assert_eq!(app.state.notifications.last().unwrap().message, "Failed to delete database: busy");
    app.database_deleted("shop".to_string(), Ok(()), &catalog());
    assert_eq!((app.selected_db_index, app.selected_table_index), (0, 0));
    assert_eq!(app.state.notifications.last().unwrap().message, "Deleted database 'shop'");
}

#[test]
fn databases_are_created_selected_and_disconnected() {
    let mut app = App::new();
    let mut shop = catalog();
    shop.current_database = Some("shop".to_string());
    app.database_created("shop".to_string(), Ok(()), &shop);
    assert_eq!(app.state.selected_database, Some("shop".to_string()));
    assert_eq!(app.selected_db_index, 1);
    assert_eq!(app.state.notifications[0].message, "Created database 'shop'");
    app.database_created("x".to_string(), Err("no".to_string()), &shop);
    assert_eq!(app.state.selected_database, Some("shop".to_string()));
    assert_eq!(app.state.notifications[1].message, "Failed to create database: no");
    assert_eq!(
        app.handle_key(Key::Char('x'), &shop),
        vec![Command::Disconnect { name: "shop".to_string() }]
    );
    app.selected_table_index = 3;
    assert!(app.handle_key(Key::Char('x'), &catalog()).is_empty());
    assert_eq!((app.selected_db_index, app.selected_table_index), (0, 0));
    assert!(app.handle_key(Key::Char('x'), &nothing()).is_empty());
    app.disconnected("shop".to_string(), Err("no".to_string()), &catalog());
    assert_eq!(app.state.selected_database, Some("shop".to_string()));
    app.state.select_table("t".to_string());
    app.disconnected("shop".to_string(), Ok(()), &catalog());
    assert_eq!(app.state.selected_database, None);
    assert_eq!(app.state.selected_table, None);
    assert_eq!(app.state.notifications.last().unwrap().message, "Disconnected from: shop");
    app.handle_key(Key::Enter, &catalog());
    assert!(app.state.database_dropdown_expanded);
    assert_eq!(app.state.dropdown_selected_index, 0);
    app.handle_key(Key::Down, &catalog());
    app.handle_key(Key::Down, &catalog());
    assert_eq!(app.state.dropdown_selected_index, 1);
    assert_eq!(
        app.handle_key(Key::Enter, &catalog()),
        vec![Command::SelectDatabase { name: "shop".to_string() }]
    );
    assert!(!app.state.database_dropdown_expanded);
    app.selected_table_index = 1;
    app.database_selected("shop".to_string(), Ok(()), &shop);
    assert_eq!(app.state.selected_database, Some("shop".to_string()));
    assert_eq!((app.selected_db_index, app.selected_table_index), (1, 0));
    app.database_selected("memory".to_string(), Err("gone".to_string()), &shop);
    assert_eq!(app.state.selected_database, Some("shop".to_string()));
    app.file_connected("file.db".to_string(), Ok(()), &catalog());
    assert_eq!(app.state.selected_database, Some("file.db".to_string()));
    assert_eq!(app.selected_db_index, 0);
    assert_eq!(app.state.notifications.last().unwrap().message, "Connected to database: file.db");
    app.handle_key(Key::Up, &catalog());
    assert!(app.state.database_dropdown_expanded);
    app.handle_key(Key::Tab, &catalog());
    assert!(!app.state.database_dropdown_expanded);
    assert_eq!(app.state.active_panel, NavigationPanel::DatabaseList);
}

#[test]
fn a_chosen_file_is_routed_by_its_kind() {
    let mut app = App::new();
    app.file_browser_opened(Err("denied".to_string()));
    assert!(!app.show_file_browser);
    assert_eq!(app.state.notifications[0].message, "Error opening file browser: denied");
    assert_eq!(app.handle_key(Key::Char('o'), &catalog()), vec![Command::OpenFileBrowser]);
    app.file_browser_opened(Ok(()));
    assert!(app.show_file_browser);
    assert_eq!(app.state.notifications[1].message, "File browser opened");
    assert_eq!(
        app.file_chosen(Path::new("/data/shop.DuckDB")),
        vec![Command::ConnectChosenFile, Command::CloseFileBrowser]
    );
    assert!(!app.show_file_browser);
    assert_eq!(app.file_chosen(Path::new("notes.txt")), vec![Command::CloseFileBrowser]);
    assert_eq!(app.state.notifications[2].message, "Unsupported file type");
    assert_eq!(app.file_chosen(Path::new("rows.csv")), vec![Command::CloseFileBrowser]);
    assert_eq!(
        app.state.notifications[3].message,
        "Please start table creation first (press 'i')"
    );
    press(&mut app, "i");
    assert!(!app.state.is_creating_table);
    press(&mut app, "2");
    app.handle_key(Key::Char('i'), &nothing());
    assert_eq!(app.state.notifications[4].message, "Please connect to a database first");
    press(&mut app, "i");
    assert!(matches!(app.input_owner(), InputOwner::TableName));
    assert!(app.handle_key(Key::Enter, &catalog()).is_empty());
    press(&mut app, "new");
    assert_eq!(app.handle_key(Key::Enter, &catalog()), vec![Command::OpenFileBrowser]);
    assert_eq!(app.state.table_creation_step, TableCreationStep::SelectingFile);
    assert!(matches!(app.input_owner(), InputOwner::Panels));
    app.file_browser_opened(Ok(()));
    assert_eq!(
        app.file_chosen(Path::new("rows.csv")),
        vec![
            Command::ImportChosenFile { table_name: "new".to_string() },
            Command::CloseFileBrowser
        ]
    );
    assert_eq!(app.state.table_creation_step, TableCreationStep::ImportingData);
    let mut after = catalog();
    after.tables = names(&["new", "t", "u"]);
    let before = app.state.notifications.len();
    let commands = app.import_finished("rows.csv".to_string(), "new".to_string(), Ok(()), &after);
    assert_eq!(
        commands,
        vec![Command::LoadColumns { table: "new".to_string(), purpose: Refresh::Initial }]
    );
    assert_eq!(app.state.notifications[before].message, "Imported rows.csv into table 'new'");
    assert_eq!(app.state.notifications[before + 1].message, "Successfully created table 'new'");
    assert_eq!(app.state.selected_database, Some("memory".to_string()));
    assert_eq!(app.state.selected_table, Some("new".to_string()));
    assert_eq!(app.selected_table_index, 0);
    assert!(!app.state.is_creating_table);
    press(&mut app, "i");
    press(&mut app, "bad");
    app.handle_key(Key::Enter, &catalog());
    let commands = app.import_finished("x.csv".to_string(), "bad".to_string(), Err("parse".to_string()), &after);
    assert!(commands.is_empty());
    let n = app.state.notifications.len();
    assert_eq!(app.state.notifications[n - 2].message, "Import failed: parse");
    assert_eq!(app.state.notifications[n - 1].message, "Failed to create table 'bad'");
    assert_eq!(app.state.selected_table, Some("new".to_string()));
}

#[test]
fn the_panels_answer_to_the_movement_keys() {
    let mut app = viewing_table();
    app.state.last_table_area_height = 5;
    app.handle_key(Key::Down, &catalog());
    press(&mut app, "jj");
    assert_eq!((app.state.selected_row, app.state.scroll_y), (2, 1));
    press(&mut app, "k");
    assert_eq!((app.state.selected_row, app.state.scroll_y), (1, 1));
    press(&mut app, "K");
    assert_eq!((app.state.selected_row, app.state.scroll_y), (0, 0));
    press(&mut app, "J");
    assert_eq!((app.state.selected_row, app.state.scroll_y), (2, 0));
    press(&mut app, "L");
    assert_eq!(app.state.selected_column, Some("age".to_string()));
    press(&mut app, "H");
    assert_eq!(app.state.selected_column, Some("id".to_string()));
    assert!(app.handle_extreme(Edge::Right).is_empty());
    assert_eq!(app.state.selected_column, Some("age".to_string()));
    app.handle_key(Key::Enter, &catalog());
    assert!(app.state.is_column_expanded(2));
    press(&mut app, "i");
    assert!(app.state.inspect_mode);
    press(&mut app, "jj");
    assert_eq!(app.state.inspect_selected_row, 2);
    press(&mut app, "j");
    assert_eq!(app.state.inspect_selected_row, 2);
    app.handle_key(Key::Tab, &catalog());
    press(&mut app, "l");
    assert_eq!(app.state.inspect_stats_scroll_y, 5);
    press(&mut app, "j");
    assert_eq!(app.state.inspect_stats_scroll_y, 6);
    press(&mut app, "h");
    press(&mut app, "k");
    assert_eq!(app.state.inspect_stats_scroll_y, 0);
    app.state.active_panel = NavigationPanel::TableList;
    press(&mut app, "m");
    assert!(!app.state.is_modifying);
    app.handle_key(Key::Tab, &catalog());
    press(&mut app, "m");
    assert!(app.state.is_modifying);
    app.state.active_panel = NavigationPanel::MainContent;
    let commands = press(&mut app, "k");
    assert_eq!(app.state.get_virtual_column_order(), names(&["id", "age", "name"]));
    assert_eq!(app.state.inspect_selected_row, 1);
    load(&mut app, commands, &["id", "age", "name"], 3);
    let commands = press(&mut app, "j");
    assert_eq!(app.state.get_virtual_column_order(), names(&["id", "name", "age"]));
    load(&mut app, commands, &["id", "name", "age"], 3);
    assert!(press(&mut app, "j").is_empty());
    app.handle_key(Key::Enter, &catalog());
    app.handle_key(Key::Esc, &catalog());
    assert!(!app.state.inspect_mode);
    app.handle_key(Key::BackTab, &catalog());
    assert_eq!(app.state.active_panel, NavigationPanel::TableList);
    press(&mut app, "j");
    assert_eq!(app.selected_table_index, 1);
    press(&mut app, "j");
    assert_eq!(app.selected_table_index, 1);
    press(&mut app, "l");
    assert_eq!(app.state.active_panel, NavigationPanel::DatabaseList);
    press(&mut app, "h");
    assert_eq!(app.state.active_panel, NavigationPanel::TableList);
    press(&mut app, "k?");
    assert_eq!(app.selected_table_index, 0);
    assert!(app.state.notifications.last().unwrap().message.starts_with("Keys: Tab=Navigate"));
    assert!(app.handle_key(Key::Other, &catalog()).is_empty());
    assert!(press(&mut app, "qz").is_empty());
}

#[test]
fn the_clock_runs_without_keys() {
    let mut app = App::new();
    app.state.show_info("a".to_string());
    app.state.next_panel();
    assert!(app.update_notifications().is_empty());
    assert_eq!(app.state.notifications.len(), 1);
    app.state.notifications[0].duration_secs = 0;
    app.state.flash_duration_ms = 0;
    assert!(app.update_notifications().is_empty());
    assert!(app.state.notifications.is_empty());
    assert!(app.state.panel_flash_timer.is_none());
}

#[test]
fn the_cap_on_the_rows_travels_beside_the_statement() {
    assert_eq!(Refresh::Initial.row_cap(), Some(1000));
    assert_eq!(Refresh::Layout.row_cap(), Some(1000));
    assert_eq!(Refresh::Preview.row_cap(), Some(1000));
    assert_eq!(Refresh::Rows { limit: true }.row_cap(), Some(1000));
    assert_eq!(Refresh::Rows { limit: false }.row_cap(), None);
    let mut app = viewing_table();
    let capped = app.columns_loaded(Refresh::Rows { limit: true }, Ok(names(&["id", "name", "age"])));
    assert_eq!(
        capped,
        vec![Command::RunQuery {
            sql: "SELECT id, name, age FROM t".to_string(),
            purpose: Refresh::Rows { limit: true },
            row_cap: Some(1000),
        }]
    );
    let whole = app.columns_loaded(Refresh::Rows { limit: false }, Ok(names(&["id", "name", "age"])));
    assert_eq!(
        whole,
        vec![Command::RunQuery {
            sql: "SELECT id, name, age FROM t".to_string(),
            purpose: Refresh::Rows { limit: false },
            row_cap: None,
        }]
    );
}

fn no_time(app: &App) -> Vec<u64> {
    vec![0; app.state.notifications.len()]
}

#[test]
fn a_turn_of_the_loop_goes_by_what_the_clocks_read() {
    let mut app = viewing_table();
    let mut secs = no_time(&app);
    app.state.show_info("a".to_string());
    app.state.show_error("b".to_string());
    app.state.start_panel_flash();
    let count = app.state.notifications.len();
    secs.extend([2, 4]);
    assert!(app.tick_after(&secs, 999, 10_000).is_empty());
    assert_eq!(app.state.notifications.len(), count);
    assert!(app.state.panel_flash_timer.is_some());
    secs[count - 2] = 3;
    assert!(app.tick_after(&secs, 1000, 10_000).is_empty());
    assert_eq!(app.state.notifications.len(), count - 1);
    assert_eq!(app.state.notifications.last().unwrap().message, "b");
    assert!(app.state.panel_flash_timer.is_none());
    press(&mut app, "ll");
    press(&mut app, "f");
    press(&mut app, "=1");
    app.filter_checked(Some(true));
    assert!(app.state.search_debounce_timer.is_some());
    let idle = no_time(&app);
    assert!(app.tick_after(&idle, 0, 599).is_empty());
    assert!(app.state.search_debounce_timer.is_some());
    let preview = app.tick_after(&idle, 0, 600);
    assert_eq!(
        preview,
        vec![Command::LoadColumns { table: "t".to_string(), purpose: Refresh::Preview }]
    );
    assert!(app.state.search_debounce_timer.is_none());
    assert!(app.tick_after(&idle, 0, 600).is_empty());
    assert_eq!(
        load(&mut app, preview, &["id", "name", "age"], 1),
        "SELECT id, name, age FROM t WHERE name =1"
    );
}

#[test]
fn the_table_viewer_passes_over_other_characters() {
    let mut app = viewing_table();
    press(&mut app, "ll");
    press(&mut app, "a");
    app.state.column_filters.push(("id".to_string(), "> 0".to_string()));
    assert_eq!(app.state.sort_columns.len(), 1);
    let notifications = app.state.notifications.len();
    for c in ['x', 'C', 'b', ' ', '1', 'é'] {
        assert!(app.handle_table_key(c).is_empty());
    }
    assert_eq!(app.state.sort_columns.len(), 1);
    assert_eq!(app.state.sort_columns[0].column_name, "name");
    assert_eq!(app.state.column_filters, vec![("id".to_string(), "> 0".to_string())]);
    assert_eq!(app.state.notifications.len(), notifications);
    assert!(!app.state.is_searching);
    assert_eq!(
        app.handle_table_key('c'),
        vec![Command::LoadColumns { table: "t".to_string(), purpose: Refresh::Rows { limit: true } }]
    );
    assert!(app.state.sort_columns.is_empty());
    assert!(app.state.column_filters.is_empty());
}
