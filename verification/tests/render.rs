use ducky::controller::{App, Catalog};
use ducky::focus::NavigationPanel;
use ducky::notify::NotificationType;
use ducky::query::QueryResult;
use ducky::render::inspect::{
    order_schema_rows, statistics_column_widths, SchemaLine,
};
use ducky::render::lists::{dropdown_area, write_dropdown_label, ListEmphasis};
use ducky::render::texts::{write_sort_info, ViewerContent};
use ducky::render::{centered_popup, panel_border, Area, BorderEmphasis, MainArea, Overlay};
use ducky::schema::TableInfo;
use ducky::state::ApplicationState;

fn names(list: &[&str]) -> Vec<String> {
    list.iter().map(|s| s.to_string()).collect()
}

fn data(columns: &[&str], rows: &[&[&str]]) -> QueryResult {
    QueryResult {
        columns: names(columns),
        rows: rows.iter().map(|r| names(r)).collect(),
        row_count: rows.len(),
        execution_time_ms: 0,
    }
}

#[test]
fn borders_tell_focus_and_flash() {
    let main = NavigationPanel::MainContent;
    let list = NavigationPanel::TableList;
    assert_eq!(panel_border(list, main, true), BorderEmphasis::Inactive);
    assert_eq!(panel_border(list, list, true), BorderEmphasis::Flashing);
    assert_eq!(panel_border(list, list, false), BorderEmphasis::Active);
    let mut app = App::new();
    assert_eq!(app.get_panel_border_style(NavigationPanel::DatabaseList), BorderEmphasis::Active);
    assert_eq!(app.get_panel_border_style(main), BorderEmphasis::Inactive);
    app.state.next_panel();
    assert_eq!(app.get_panel_border_style(main), BorderEmphasis::Flashing);
    assert_eq!(app.panel_border_style(main, false), BorderEmphasis::Active);
}

#[test]
fn popups_sit_in_the_middle() {
    let screen = Area { x: 0, y: 0, width: 100, height: 40 };
    assert_eq!(centered_popup(screen, 50, 5), Area { x: 25, y: 17, width: 50, height: 5 });
    assert_eq!(centered_popup(screen, 60, 8), Area { x: 20, y: 16, width: 60, height: 8 });
    let small = Area { x: 3, y: 4, width: 40, height: 5 };
    assert_eq!(centered_popup(small, 60, 6), Area { x: 0, y: 0, width: 60, height: 6 });
    assert_eq!(centered_popup(small, 39, 4), Area { x: 0, y: 0, width: 39, height: 4 });
}

#[test]
fn the_dropdown_opens_below_its_label() {
    let anchor = Area { x: 0, y: 3, width: 30, height: 3 };
    let screen = Area { x: 0, y: 0, width: 100, height: 40 };
    assert_eq!(dropdown_area(anchor, 2, screen), Area { x: 0, y: 6, width: 30, height: 4 });
    assert_eq!(dropdown_area(anchor, 7, screen), Area { x: 0, y: 6, width: 30, height: 9 });
    assert_eq!(dropdown_area(anchor, 8, screen), Area { x: 0, y: 6, width: 30, height: 10 });
    assert_eq!(dropdown_area(anchor, 500_000, screen), Area { x: 0, y: 6, width: 30, height: 10 });
    let low = Area { x: 0, y: 0, width: 100, height: 9 };
    assert_eq!(dropdown_area(anchor, 8, low), Area { x: 0, y: 6, width: 30, height: 3 });
    let tiny = Area { x: 0, y: 0, width: 100, height: 4 };
    assert_eq!(dropdown_area(anchor, 8, tiny), Area { x: 0, y: 6, width: 30, height: 0 });
    assert_eq!(write_dropdown_label(&Some("shop".to_string())), "DB: [shop]");
    assert_eq!(write_dropdown_label(&None), "DB: [none]");
}

#[test]
fn overlays_come_in_their_order() {
    let mut app = App::new();
    assert_eq!(app.overlays(), Vec::<Overlay>::new());
    assert_eq!(app.main_area(), MainArea::Panels);
    app.state.start_table_delete_confirmation("t".to_string());
    app.state.show_info("x".to_string());
    app.state.expand_database_dropdown(1);
    assert_eq!(
        app.overlays(),
        vec![Overlay::Notifications, Overlay::DatabaseDropdown, Overlay::DeleteConfirmation]
    );
    app.show_file_browser = true;
    app.state.start_view_name_input();
    app.state.start_save_filename_input();
    app.state.start_database_name_input();
    assert_eq!(
        app.overlays(),
        vec![
            Overlay::Notifications,
            Overlay::FileBrowser,
            Overlay::DatabaseDropdown,
            Overlay::DatabaseNameInput,
            Overlay::SaveFilenameInput,
            Overlay::ViewNameInput,
            Overlay::DeleteConfirmation
        ]
    );
    assert!(app.shows(Overlay::FileBrowser));
    app.state.enter_inspect_mode();
    assert_eq!(app.main_area(), MainArea::Empty);
    app.state.select_table("t".to_string());
    assert_eq!(app.main_area(), MainArea::Inspect { table: "t".to_string() });
}

#[test]
fn lists_mark_what_is_selected_and_what_is_current() {
    let mut app = App::new();
    let catalog = Catalog {
        databases: names(&["memory", "shop", "old"]),
        current_database: Some("shop".to_string()),
        connected: true,
        tables: Vec::new(),
    };
    app.state.dropdown_selected_index = 0;
    let lines: Vec<(String, ListEmphasis)> =
        app.dropdown_lines(&catalog).into_iter().map(|l| (l.text, l.emphasis)).collect();
    assert_eq!(
        lines,
        vec![
            ("  🗄️  memory".to_string(), ListEmphasis::Selected),
            ("● 🗄️  shop".to_string(), ListEmphasis::Current),
            ("  🗄️  old".to_string(), ListEmphasis::Plain)
        ]
    );
    let mut view = TableInfo::new("v1".to_string());
    view.table_type = "VIEW".to_string();
    let tables = vec![TableInfo::new("t".to_string()), view, TableInfo::new("u".to_string())];
    app.selected_table_index = 1;
    app.state.selected_table = Some("v1".to_string());
    let lines: Vec<(String, ListEmphasis)> =
        app.table_lines(&tables).into_iter().map(|l| (l.text, l.emphasis)).collect();
    assert_eq!(
        lines,
        vec![
            ("  [t] t".to_string(), ListEmphasis::Plain),
            ("● [v] v1".to_string(), ListEmphasis::Selected),
            ("  [t] u".to_string(), ListEmphasis::Plain)
        ]
    );
    app.selected_table_index = 2;
    assert_eq!(app.table_lines(&tables)[1].emphasis, ListEmphasis::Current);
}

#[test]
fn the_status_bar_tells_where_the_selection_is() {
    let mut state = ApplicationState::new();
    assert_eq!(state.table_status_text(), "No table data");
    state.select_table("t".to_string());
    state.initialize_column_order(names(&["a", "b", "c"]));
    state.table_data = Some(data(&["a", "c"], &[&["1", "2"], &["3", "4"]]));
    assert_eq!(state.table_status_text(), "Row: 1 of 2 | Col: 1 of 2 | ←→↑↓ navigate");
    state.selected_row = 1;
    state.selected_column = Some("c".to_string());
    assert_eq!(state.table_status_text(), "Row: 2 of 2 | Col: 3 of 2 | ←→↑↓ navigate");
    state.selected_column = Some("b".to_string());
    state.toggle_column_visibility();
    assert_eq!(state.table_status_text(), "Row: 2 of 2 | Col: 2 of 2 | ←→↑↓ navigate");
    state.selected_row = usize::MAX;
    assert!(state.table_status_text().starts_with("Row: 18446744073709551616 of 2"));
    assert_eq!(state.table_status_line(20), "Row: 18446744...");
    state.set_status("All is well".to_string());
    state.selected_table = None;
    assert_eq!(state.left_status_line(40), "All is well");
    assert_eq!(state.left_status_line(12), "All i...");
    assert_eq!(state.left_status_line(3), "...");
}

#[test]
fn the_filter_input_shows_its_column_and_a_cursor() {
    let mut state = ApplicationState::new();
    state.table_data = Some(data(&["id", "name"], &[]));
    state.start_column_search(1);
    assert_eq!(state.search_input_line(80), "Filter [name]: _");
    state.add_char_to_search('>');
    state.add_char_to_search('5');
    assert_eq!(state.search_input_line(80), "Filter [name]: >5_");
    assert_eq!(state.search_input_line(14), "Filter ...");
    state.search_column = Some(2);
    assert_eq!(state.search_input_line(80), "Filter: >5_");
    state.search_column = Some(0);
    state.table_data = None;
    assert_eq!(state.search_input_line(80), "Filter: >5_");
}

#[test]
fn the_latest_notification_is_drawn() {
    let mut state = ApplicationState::new();
    assert_eq!(state.notification_line(60), None);
    state.show_error("first".to_string());
    state.show_success("all rows were imported".to_string());
    assert_eq!(
        state.notification_line(60),
        Some((NotificationType::Success, "✅ all rows were imported".to_string()))
    );
    assert_eq!(
        state.notification_line(16),
        Some((NotificationType::Success, "✅ all row...".to_string()))
    );
    state.show_info("i".to_string());
    assert_eq!(state.notification_line(4), Some((NotificationType::Info, "ℹ️ ...".to_string())));
    state.notifications.pop();
    state.notifications.pop();
    assert_eq!(state.notification_line(60), Some((NotificationType::Error, "❌ first".to_string())));
}

#[test]
fn the_table_viewer_says_what_it_waits_for() {
    let mut state = ApplicationState::new();
    match state.viewer_content() {
        ViewerContent::Message { content, title } => {
            assert_eq!(title, "Main Content [3]");
            assert!(content.starts_with("Select a database and table to view data\n\nNavigation:"));
            assert!(content.ends_with("\n\nDebug:\nDatabase: None\nTable: None"));
        }
        other => panic!("unexpected content {:?}", other),
    }
    state.select_table("my \"t\"".to_string());
    match state.viewer_content() {
        ViewerContent::Message { content, .. } => {
            assert!(content.ends_with("Debug:\nDatabase: None\nTable: Some(\"my \\\"t\\\"\")"));
        }
        other => panic!("unexpected content {:?}", other),
    }
    state.select_database("shop".to_string());
    state.select_table("t".to_string());
    assert_eq!(
        state.viewer_content(),
        ViewerContent::Message {
            content: "Database: shop\nTable: t\n\nLoading table data...\n\nPress Enter on table to load data or wait for auto-load".to_string(),
            title: "Table Viewer".to_string()
        }
    );
    let mut d = data(&["a"], &[&["1"], &["2"]]);
    d.row_count = 17;
    state.table_data = Some(d.clone());
    assert_eq!(
        state.viewer_content(),
        ViewerContent::Table { title: "Table: t (17 rows)".to_string() }
    );
    state.selected_column = Some("a".to_string());
    state.toggle_in_sort_chain(false);
    state.selected_column = Some("gone".to_string());
    state.toggle_in_sort_chain(true);
    assert_eq!(state.table_title("t", &d), "Table: t (17 rows) - Sorted by: a DESC, gone ASC");
    assert_eq!(write_sort_info(&Vec::new()), "");
    state.start_table_creation();
    assert_eq!(
        state.viewer_content(),
        ViewerContent::Message {
            content: "Create New Table\n\nTable name: _\n\nType the table name and press Enter to continue\nPress Esc to cancel".to_string(),
            title: "Import Wizard - Table Name".to_string()
        }
    );
    state.add_char_to_table_name('n');
    match state.viewer_content() {
        ViewerContent::Message { content, .. } => {
            assert!(content.starts_with("Create New Table\n\nTable name: n\n\n"))
        }
        other => panic!("unexpected content {:?}", other),
    }
    state.confirm_table_name();
    assert_eq!(
        state.viewer_content(),
        ViewerContent::Message {
            content: "Create New Table: 'n'\n\nSelect a file to import data from:\n• CSV files (.csv)\n• JSON files (.json)\n• Parquet files (.parquet)\n\nPress Esc to cancel".to_string(),
            title: "Import Wizard - File Selection".to_string()
        }
    );
    state.set_importing_data();
    assert_eq!(
        state.viewer_content(),
        ViewerContent::Message {
            content: "Create New Table: 'n'\n\nImporting data...\n\nPlease wait while the data is being imported.".to_string(),
            title: "Import Wizard - Importing".to_string()
        }
    );
    state.note_table_area_height(33);
    assert_eq!(state.last_table_area_height, 33);
}

#[test]
fn the_prompts_show_what_was_typed() {
    let mut state = ApplicationState::new();
    assert_eq!(
        state.database_name_prompt(),
        "Create New Database\n\nName: _\n\nPress Enter to create, Esc to cancel"
    );
    state.add_char_to_database_name('d');
    assert_eq!(
        state.database_name_prompt(),
        "Create New Database\n\nName: d\n\nPress Enter to create, Esc to cancel"
    );
    assert_eq!(
        state.save_filename_prompt(&None),
        "Save Database 'none' to File\n\nFilename: _\n\n(.db extension will be added if not present)\nPress Enter to save, Esc to cancel"
    );
    state.add_char_to_save_filename('f');
    assert_eq!(
        state.save_filename_prompt(&Some("shop".to_string())),
        "Save Database 'shop' to File\n\nFilename: f\n\n(.db extension will be added if not present)\nPress Enter to save, Esc to cancel"
    );
    assert_eq!(
        state.delete_prompt(),
        "⚠️  Delete Confirmation\n\nDelete item 'unknown'?\nThis action cannot be undone!\n\nPress 'd' to confirm, Esc to cancel"
    );
    state.start_database_delete_confirmation("shop".to_string());
    assert_eq!(
        state.delete_prompt(),
        "⚠️  Delete Confirmation\n\nDelete database 'shop'?\nThis action cannot be undone!\n\nPress 'd' to confirm, Esc to cancel"
    );
    state.start_table_delete_confirmation("t".to_string());
    assert!(state.delete_prompt().contains("Delete table 't'?"));
    assert_eq!(
        state.view_name_prompt(),
        "Save View from Table 'unknown'\n\nView name: _\nSQL: SELECT * FROM table\n\nPress Enter to create view, Esc to cancel"
    );
    state.select_table("t".to_string());
    state.initialize_column_order(names(&["id", "name"]));
    state.add_char_to_view_name('v');
    assert_eq!(
        state.view_name_prompt(),
        "Save View from Table 't'\n\nView name: v\nSQL: SELECT id, name FROM t\n\nPress Enter to create view, Esc to cancel"
    );
    state.column_filters.push(("id".to_string(), "IN (".to_string() + &"1, ".repeat(40) + "2)"));
    let preview = state.sql_preview();
    assert_eq!(preview.chars().count(), 6 + 100);
    assert!(preview.starts_with("\nSQL: SELECT id, name FROM t WHERE id IN (1, 1, "));
    assert!(preview.ends_with("1, 1..."));
}

#[test]
fn the_column_list_follows_the_display_order() {
    let mut state = ApplicationState::new();
    state.select_table("t".to_string());
    state.initialize_column_order(names(&["id", "name", "age"]));
    let description = data(
        &["column_name", "column_type", "null"],
        &[&["id", "INTEGER", "NO"], &["name", "VARCHAR", "YES"], &["age"]],
    );
    assert_eq!(state.schema_title("t"), "► Columns: t (Tab to switch, j/k to scroll, m to modify)");
    assert_eq!(state.statistics_title("t"), "Statistics: t (Press Esc to exit inspect mode)");
    assert_eq!(state.schema_mark(), Some(0));
    state.reorder_column(2, 0);
    state.selected_column = Some("name".to_string());
    state.toggle_in_sort_chain(false);
    state.selected_column = Some("id".to_string());
    state.toggle_in_sort_chain(true);
    state.toggle_column_visibility();
    assert_eq!(
        order_schema_rows(
            &state.get_virtual_column_order(),
            &state.get_original_column_names(),
            &description.rows
        ),
        vec![names(&["age"]), names(&["id", "INTEGER", "NO"]), names(&["name", "VARCHAR", "YES"])]
    );
    assert_eq!(
        state.schema_lines(&description),
        vec![
            SchemaLine::Column { cells: names(&["age", "?", "?", "", "", "NO"]), hidden: false },
            SchemaLine::Column { cells: names(&["id", "INTEGER", "NO", "2", "ASC", "YES"]), hidden: true },
            SchemaLine::Column {
                cells: names(&["name", "VARCHAR", "YES", "1", "DESC", "NO"]),
                hidden: false
            }
        ]
    );
    state.inspect_schema_scroll_y = 1;
    state.inspect_selected_row = 2;
    assert_eq!(state.schema_mark(), Some(1));
    assert_eq!(
        state.schema_lines(&description),
        vec![
            SchemaLine::Column { cells: names(&["id", "INTEGER", "NO", "1", "DESC", "NO"]), hidden: false },
            SchemaLine::Error
        ]
    );
    state.inspect_schema_scroll_y = 4;
    assert_eq!(state.schema_lines(&description), Vec::<SchemaLine>::new());
    assert_eq!(state.schema_mark(), Some(0));
    state.is_modifying = true;
    assert_eq!(
        state.schema_title("t"),
        "► Columns: t (MODIFY MODE - j/k to move, J/K for extremes, o to hide/show, Enter to confirm, Esc to cancel)"
    );
    state.inspect_cycle_section();
    assert_eq!(state.schema_title("t"), "Columns: t");
    assert_eq!(
        state.statistics_title("t"),
        "► Statistics: t (Tab to switch, ↑↓ to scroll, Esc to exit)"
    );
    assert_eq!(state.schema_mark(), None);
    state.inspect_stats_scroll_y = 3;
    assert_eq!(state.statistics_offset(), 3);
    let missing = data(&["column_name"], &[&["id"]]);
    assert_eq!(
        order_schema_rows(&names(&["x", "name", "id"]), &names(&["id", "name"]), &missing.rows),
        vec![names(&["id"])]
    );
}

#[test]
fn statistics_columns_are_as_wide_as_their_longest_text() {
    let statistics = data(
        &["column_name", "min", "a_very_long_header_for_a_column", "é"],
        &[&["id", "1", "x"], &["name", "a long minimum of text", "y", "ééééé"]],
    );
    assert_eq!(statistics_column_widths(&statistics), vec![11, 20, 20, 10]);
    assert_eq!(statistics_column_widths(&data(&[], &[])), Vec::<usize>::new());
}
