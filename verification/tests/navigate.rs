use ducky::focus::InspectSection;
use ducky::query::QueryResult;
use ducky::state::ApplicationState;

fn names(list: &[&str]) -> Vec<String> {
    list.iter().map(|s| s.to_string()).collect()
}

fn data(columns: usize, rows: usize) -> QueryResult {
    QueryResult {
        columns: (0..columns).map(|c| format!("c{c}")).collect(),
        rows: (0..rows).map(|r| (0..columns).map(|c| format!("{r}:{c}")).collect()).collect(),
        row_count: rows,
        execution_time_ms: 0,
    }
}

fn table(columns: usize, rows: usize) -> ApplicationState {
    let mut state = ApplicationState::new();
    state.select_table("t".to_string());
    state.initialize_column_order((0..columns).map(|c| format!("c{c}")).collect());
    state.set_table_data(data(columns, rows));
    state
}

#[test]
fn jumps_go_to_the_edges_of_the_table() {
    let mut state = table(7, 25);
    state.navigate_extreme_down();
    assert_eq!((state.selected_row, state.scroll_y), (24, 15));
    state.navigate_extreme_up();
    assert_eq!((state.selected_row, state.scroll_y), (0, 0));
    state.navigate_extreme_right();
    assert_eq!(state.selected_column, Some("c6".to_string()));
    assert_eq!(state.scroll_x, 2);
    state.navigate_extreme_left();
    assert_eq!(state.selected_column, Some("c0".to_string()));
    assert_eq!(state.scroll_x, 0);
    let mut small = table(3, 4);
    small.scroll_y = 1;
    small.scroll_x = 1;
    small.navigate_extreme_down();
    assert_eq!((small.selected_row, small.scroll_y), (3, 1));
    small.selected_column = Some("c0".to_string());
    small.toggle_column_visibility();
    small.selected_column = Some("c2".to_string());
    small.toggle_column_visibility();
    small.navigate_extreme_right();
    assert_eq!(small.selected_column, Some("c1".to_string()));
    assert_eq!(small.scroll_x, 1);
    let mut bare = ApplicationState::new();
    bare.selected_column = Some("kept".to_string());
    bare.scroll_x = 4;
    bare.navigate_extreme_down();
    bare.navigate_extreme_left();
    assert_eq!((bare.selected_row, bare.scroll_y, bare.scroll_x), (0, 0, 0));
    assert_eq!(bare.selected_column, Some("kept".to_string()));
    bare.navigate_extreme_right();
    assert_eq!(bare.selected_column, None);
    let mut empty = table(0, 0);
    empty.selected_column = Some("x".to_string());
    empty.navigate_extreme_left();
    assert_eq!(empty.selected_column, None);
    empty.navigate_extreme_down();
    assert_eq!(empty.selected_row, 0);
}

#[test]
fn jumps_do_nothing_in_modify_mode() {
    let mut state = table(7, 25);
    state.selected_row = 3;
    state.scroll_y = 2;
    state.scroll_x = 1;
    state.start_modifying();
    state.navigate_extreme_down();
    state.navigate_extreme_up();
    state.navigate_extreme_left();
    state.navigate_extreme_right();
    assert_eq!((state.selected_row, state.scroll_y, state.scroll_x), (3, 2, 1));
    assert_eq!(state.selected_column, None);
}

#[test]
fn jumps_page_through_the_inspect_mode() {
    let mut state = table(15, 3);
    state.enter_inspect_mode();
    state.inspect_schema_scroll_y = 3;
    state.navigate_extreme_right();
    assert_eq!(state.inspect_schema_scroll_y, 10);
    state.navigate_extreme_right();
    assert_eq!(state.inspect_schema_scroll_y, 10);
    state.inspect_schema_scroll_y = 12;
    state.navigate_extreme_right();
    assert_eq!(state.inspect_schema_scroll_y, 12);
    state.navigate_extreme_left();
    assert_eq!(state.inspect_schema_scroll_y, 2);
    state.navigate_extreme_left();
    assert_eq!(state.inspect_schema_scroll_y, 0);
    assert_eq!(state.inspect_stats_scroll_y, 0);
    state.navigate_extreme_down();
    assert_eq!((state.inspect_selected_row, state.inspect_schema_scroll_y), (14, 5));
    state.navigate_extreme_up();
    assert_eq!((state.inspect_selected_row, state.inspect_schema_scroll_y), (0, 0));
    state.inspect_cycle_section();
    assert_eq!(state.inspect_active_section, InspectSection::Statistics);
    state.inspect_selected_row = 4;
    state.navigate_extreme_down();
    assert_eq!(state.inspect_stats_scroll_y, 10);
    assert_eq!(state.inspect_selected_row, 4);
    state.navigate_extreme_left();
    assert_eq!(state.inspect_stats_scroll_y, 0);
    state.inspect_stats_scroll_y = 4;
    state.navigate_extreme_right();
    assert_eq!(state.inspect_stats_scroll_y, 10);
    state.navigate_extreme_up();
    assert_eq!(state.inspect_stats_scroll_y, 0);
    assert_eq!((state.selected_row, state.scroll_y), (0, 0));
    let mut few = table(4, 3);
    few.enter_inspect_mode();
    few.inspect_schema_scroll_y = 2;
    few.navigate_extreme_down();
    assert_eq!((few.inspect_selected_row, few.inspect_schema_scroll_y), (3, 2));
    few.table_data = None;
    few.inspect_selected_row = 1;
    few.navigate_extreme_down();
    assert_eq!(few.inspect_selected_row, 1);
}

#[test]
fn new_data_keeps_what_the_change_allows() {
    let mut state = table(4, 9);
    state.selected_column = Some("c2".to_string());
    state.selected_row = 5;
    state.scroll_y = 3;
    state.scroll_x = 1;
    state.update_table_data_preserve_position(data(4, 9));
    assert_eq!((state.selected_row, state.scroll_y, state.scroll_x), (5, 3, 1));
    assert_eq!(state.selected_column, Some("c2".to_string()));
    state.scroll_x = 3;
    state.update_table_data_preserve_position(data(4, 9));
    assert_eq!((state.selected_row, state.scroll_y, state.scroll_x), (5, 3, 2));
    state.scroll_x = 3;
    state.update_table_data_preserve_column(data(4, 2));
    assert_eq!((state.selected_row, state.scroll_y, state.scroll_x), (0, 0, 2));
    assert_eq!(state.selected_column, Some("c2".to_string()));
    assert_eq!(state.table_data.as_ref().unwrap().row_count, 2);
    state.selected_column = Some("c1".to_string());
    state.toggle_column_visibility();
    assert_eq!(state.selected_column, Some("c2".to_string()));
    state.update_table_data_preserve_column(data(3, 2));
    assert_eq!(state.scroll_x, 1);
    assert_eq!(state.get_selected_visible_index(), Some(1));
    state.selected_column = Some("gone".to_string());
    state.scroll_x = 3;
    state.update_table_data_preserve_column(data(3, 2));
    assert_eq!(state.scroll_x, 3);
    state.set_table_data(data(3, 2));
    assert_eq!((state.selected_row, state.scroll_y, state.scroll_x), (0, 0, 0));
    assert_eq!(state.selected_column, None);
    assert_eq!(state.get_virtual_column_order(), names(&["c0", "c1", "c2", "c3"]));
}
