use ducky::state::ApplicationState;

fn names(list: &[&str]) -> Vec<String> {
    list.iter().map(|s| s.to_string()).collect()
}

fn table(columns: &[&str]) -> ApplicationState {
    let mut state = ApplicationState::new();
    state.select_table("t".to_string());
    state.initialize_column_order(names(columns));
    state
}

fn sorted(mut list: Vec<String>) -> Vec<String> {
    list.sort();
    list
}

fn hide_column(state: &mut ApplicationState, column: &str) {
    let before = state.selected_column.clone();
    state.selected_column = Some(column.to_string());
    state.toggle_column_visibility();
    if before.as_deref() != Some(column) {
        state.selected_column = before;
    }
}

#[test]
fn a_fresh_table_shows_the_schema_order() {
    let state = table(&["id", "name", "age"]);
    assert_eq!(state.get_original_column_names(), names(&["id", "name", "age"]));
    assert_eq!(state.get_virtual_column_order(), names(&["id", "name", "age"]));
    assert_eq!(state.get_column_names(), names(&["id", "name", "age"]));
    assert_eq!(state.get_visible_column_names(), names(&["id", "name", "age"]));
    assert_eq!(state.get_visible_columns(), vec![0, 1, 2]);
    assert!(!state.has_hidden_columns());
}

#[test]
fn initialize_is_done_once_for_a_table() {
    let mut state = table(&["id", "name", "age"]);
    state.initialize_column_order(names(&["x", "y"]));
    assert_eq!(state.get_original_column_names(), names(&["id", "name", "age"]));
    assert_eq!(state.get_virtual_column_order(), names(&["id", "name", "age"]));
    assert!(state.reorder_column(0, 2));
    state.initialize_column_order(names(&["id", "name", "age"]));
    assert_eq!(state.get_virtual_column_order(), names(&["name", "age", "id"]));
}

#[test]
fn without_a_table_the_schema_order_is_shown() {
    let mut state = ApplicationState::new();
    state.initialize_column_order(names(&["a", "b"]));
    assert_eq!(state.get_virtual_column_order(), names(&["a", "b"]));
    assert!(state.column_order.is_empty());
    assert!(!state.reorder_column(0, 1));
    assert_eq!(state.get_virtual_column_order(), names(&["a", "b"]));
}

#[test]
fn reorder_takes_a_column_out_and_puts_it_back_in() {
    let mut state = table(&["a", "b", "c", "d"]);
    assert!(state.reorder_column(0, 2));
    assert_eq!(state.get_virtual_column_order(), names(&["b", "c", "a", "d"]));
    assert!(state.reorder_column(3, 0));
    assert_eq!(state.get_virtual_column_order(), names(&["d", "b", "c", "a"]));
    assert!(state.reorder_column(1, 1));
    assert_eq!(state.get_virtual_column_order(), names(&["d", "b", "c", "a"]));
    assert!(state.reorder_column(2, 3));
    assert_eq!(state.get_virtual_column_order(), names(&["d", "b", "a", "c"]));
    assert_eq!(state.get_original_column_names(), names(&["a", "b", "c", "d"]));
}

#[test]
fn reorder_with_an_index_out_of_bounds_does_nothing() {
    let mut state = table(&["a", "b", "c"]);
    assert!(!state.reorder_column(3, 0));
    assert!(!state.reorder_column(0, 3));
    assert!(!state.reorder_column(usize::MAX, usize::MAX));
    assert_eq!(state.get_virtual_column_order(), names(&["a", "b", "c"]));
    let mut empty = table(&[]);
    assert!(!empty.reorder_column(0, 0));
}

#[test]
fn the_display_order_stays_a_permutation_of_the_schema() {
    let mut state = table(&["a", "b", "c", "d", "e"]);
    let moves = [(0, 4), (3, 1), (2, 2), (4, 0), (1, 3), (9, 0), (0, 9)];
    for (round, (from, to)) in moves.iter().enumerate() {
        state.reorder_column(*from, *to);
        let order = state.get_virtual_column_order();
        hide_column(&mut state, &order[round % order.len()]);
        assert_eq!(
            sorted(state.get_virtual_column_order()),
            sorted(state.get_original_column_names())
        );
    }
}

#[test]
fn visible_columns_are_the_display_order_without_the_hidden_ones() {
    let mut state = table(&["a", "b", "c", "d"]);
    hide_column(&mut state, "b");
    assert_eq!(state.get_visible_column_names(), names(&["a", "c", "d"]));
    assert_eq!(state.get_visible_columns(), vec![0, 2, 3]);
    assert!(state.is_column_hidden_by_name("b"));
    assert!(state.is_column_hidden(1));
    assert!(!state.is_column_hidden(0));
    assert!(!state.is_column_hidden(7));
    assert!(state.has_hidden_columns());
    assert_eq!(state.get_hidden_columns(), names(&["b"]));
    assert!(state.reorder_column(3, 0));
    assert_eq!(state.get_visible_column_names(), names(&["d", "a", "c"]));
    hide_column(&mut state, "b");
    assert_eq!(state.get_visible_column_names(), names(&["d", "a", "b", "c"]));
    assert!(!state.has_hidden_columns());
    assert!(state.hidden_columns.is_empty());
}

#[test]
fn hiding_the_selected_column_selects_the_next_visible_one() {
    let mut state = table(&["a", "b", "c"]);
    state.selected_column = Some("b".to_string());
    state.toggle_column_visibility();
    assert_eq!(state.selected_column, Some("c".to_string()));
    assert_eq!(state.get_visible_column_names(), names(&["a", "c"]));
}

#[test]
fn hiding_the_last_column_selects_the_one_before() {
    let mut state = table(&["a", "b", "c"]);
    state.selected_column = Some("c".to_string());
    state.toggle_column_visibility();
    assert_eq!(state.selected_column, Some("b".to_string()));
    state.toggle_column_visibility();
    assert_eq!(state.selected_column, Some("a".to_string()));
    state.toggle_column_visibility();
    assert_eq!(state.selected_column, None);
    assert_eq!(state.get_visible_column_names(), Vec::<String>::new());
    state.toggle_column_visibility();
    assert_eq!(state.get_hidden_columns().len(), 3);
}

#[test]
fn hiding_passes_over_hidden_neighbours() {
    let mut state = table(&["a", "b", "c", "d"]);
    hide_column(&mut state, "c");
    state.selected_column = Some("b".to_string());
    state.toggle_column_visibility();
    assert_eq!(state.selected_column, Some("d".to_string()));
    state.toggle_column_visibility();
    assert_eq!(state.selected_column, Some("a".to_string()));
}

#[test]
fn showing_a_column_leaves_the_selection_alone() {
    let mut state = table(&["a", "b", "c"]);
    hide_column(&mut state, "b");
    state.selected_column = Some("a".to_string());
    state.inspect_mode = true;
    state.inspect_selected_row = 1;
    state.toggle_column_visibility();
    assert!(!state.is_column_hidden_by_name("b"));
    assert_eq!(state.selected_column, Some("a".to_string()));
    state.inspect_selected_row = 9;
    state.toggle_column_visibility();
    assert!(!state.has_hidden_columns());
}

#[test]
fn without_a_table_nothing_can_be_hidden() {
    let mut state = ApplicationState::new();
    state.initialize_column_order(names(&["a"]));
    state.selected_column = Some("a".to_string());
    state.toggle_column_visibility();
    assert!(!state.is_column_hidden_by_name("a"));
    assert_eq!(state.get_hidden_columns(), Vec::<String>::new());
}

#[test]
fn hidden_columns_are_kept_for_each_table() {
    let mut state = table(&["a", "b"]);
    hide_column(&mut state, "a");
    assert!(state.reorder_column(0, 1));
    state.select_table("other".to_string());
    state.initialize_column_order(names(&["a", "x"]));
    assert!(!state.is_column_hidden_by_name("a"));
    hide_column(&mut state, "x");
    state.select_table("t".to_string());
    assert_eq!(state.get_original_column_names(), Vec::<String>::new());
    state.initialize_column_order(names(&["a", "b"]));
    assert_eq!(state.get_virtual_column_order(), names(&["a", "b"]));
    assert!(state.is_column_hidden_by_name("a"));
    assert!(!state.is_column_hidden_by_name("x"));
    assert_eq!(state.get_visible_column_names(), names(&["b"]));
    state.clear_hidden_columns();
    assert_eq!(state.get_visible_column_names(), names(&["a", "b"]));
    state.select_table("other".to_string());
    state.initialize_column_order(names(&["a", "x"]));
    assert_eq!(state.get_visible_column_names(), names(&["a"]));
}

#[test]
fn selecting_a_table_resets_what_belongs_to_the_table() {
    let mut state = table(&["a", "b"]);
    state.selected_column = Some("a".to_string());
    state.set_primary_sort(true);
    state.column_filters.push(("a".to_string(), "> 1".to_string()));
    state.toggle_column_expansion();
    state.scroll_x = 3;
    state.scroll_y = 4;
    state.selected_row = 5;
    state.select_table("u".to_string());
    assert_eq!(state.selected_table, Some("u".to_string()));
    assert!(state.table_data.is_none());
    assert_eq!((state.scroll_x, state.scroll_y, state.selected_row), (0, 0, 0));
    assert_eq!(state.selected_column, None);
    assert!(state.expanded_columns.is_empty());
    assert!(state.sort_columns.is_empty());
    assert!(state.column_filters.is_empty());
    assert!(state.original_column_names.is_empty());
    assert!(state.column_order.is_empty());
}

#[test]
fn the_selection_walks_the_visible_columns() {
    let mut state = table(&["a", "b", "c", "d"]);
    hide_column(&mut state, "b");
    assert_eq!(state.get_first_visible_column(), Some("a".to_string()));
    assert_eq!(state.get_last_visible_column(), Some("d".to_string()));
    assert_eq!(state.get_next_visible_column("a"), Some("c".to_string()));
    assert_eq!(state.get_prev_visible_column("c"), Some("a".to_string()));
    assert_eq!(state.get_next_visible_column("d"), None);
    assert_eq!(state.get_prev_visible_column("a"), None);
    assert_eq!(state.get_next_visible_column("nope"), None);
    assert_eq!(state.get_prev_visible_column("nope"), None);
    state.move_selected_right(4, 5);
    assert_eq!(state.selected_column, Some("a".to_string()));
    state.move_selected_right(4, 5);
    assert_eq!(state.selected_column, Some("c".to_string()));
    state.move_selected_right(4, 5);
    state.move_selected_right(4, 5);
    assert_eq!(state.selected_column, Some("d".to_string()));
    state.scroll_x = 2;
    state.move_selected_left();
    assert_eq!(state.selected_column, Some("c".to_string()));
    assert_eq!(state.scroll_x, 1);
    state.move_selected_left();
    state.move_selected_left();
    assert_eq!(state.selected_column, Some("a".to_string()));
    assert_eq!(state.scroll_x, 0);
    assert_eq!(state.get_selected_column_index(), Some(0));
    assert_eq!(state.get_column_index_by_name("c"), Some(2));
    assert_eq!(state.get_column_index_by_name("zz"), None);
    assert_eq!(state.get_column_name_by_index(3), Some("d".to_string()));
    assert_eq!(state.get_column_name_by_index(4), None);
}

#[test]
fn columns_expand_by_their_place_among_the_visible_ones() {
    let mut state = table(&["a", "b", "c"]);
    state.toggle_column_expansion();
    assert!(state.expanded_columns.is_empty());
    hide_column(&mut state, "a");
    state.selected_column = Some("c".to_string());
    state.toggle_column_expansion();
    assert!(state.is_column_expanded(1));
    assert!(!state.is_column_expanded(2));
    state.toggle_column_expansion();
    assert!(!state.is_column_expanded(1));
    state.toggle_column_expansion();
    state.clear_expanded_columns();
    assert!(!state.is_column_expanded(1));
}

#[test]
fn the_modify_mode_can_be_taken_back() {
    let mut state = table(&["a", "b", "c"]);
    state.cancel_modifying();
    state.start_modifying();
    assert!(state.is_modifying);
    assert_eq!(state.modify_backup_column_order, Some(names(&["a", "b", "c"])));
    state.selected_column = Some("a".to_string());
    assert!(state.move_column_extreme_right());
    assert_eq!(state.get_virtual_column_order(), names(&["b", "c", "a"]));
    state.start_modifying();
    assert_eq!(state.modify_backup_column_order, Some(names(&["a", "b", "c"])));
    state.cancel_modifying();
    assert!(!state.is_modifying);
    assert_eq!(state.modify_backup_column_order, None);
    assert_eq!(state.get_virtual_column_order(), names(&["a", "b", "c"]));
    state.start_modifying();
    state.selected_column = Some("c".to_string());
    assert!(state.move_column_extreme_left());
    state.confirm_modifying();
    assert!(!state.is_modifying);
    assert_eq!(state.get_virtual_column_order(), names(&["c", "a", "b"]));
    assert!(state.move_column_extreme_down());
    assert_eq!(state.get_virtual_column_order(), names(&["a", "b", "c"]));
    state.selected_column = Some("b".to_string());
    assert!(state.move_column_extreme_up());
    assert_eq!(state.get_virtual_column_order(), names(&["b", "a", "c"]));
    state.selected_column = Some("zz".to_string());
    assert!(!state.move_column_extreme_up());
    state.selected_column = None;
    assert!(!state.move_column_extreme_right());
    state.reset_column_order();
    assert_eq!(state.get_virtual_column_order(), names(&["a", "b", "c"]));
    assert_eq!(state.virtual_to_physical_index(2), 2);
    assert_eq!(state.physical_to_virtual_index(5), 5);
}

#[test]
fn the_view_query_follows_columns_filters_and_sort() {
    let mut state = table(&["id", "name", "age"]);
    assert_eq!(state.generate_view_sql("t"), Some("SELECT id, name, age FROM t".to_string()));
    hide_column(&mut state, "age");
    state.selected_column = Some("name".to_string());
    state.set_primary_sort(true);
    assert_eq!(
        state.generate_view_sql("t"),
        Some("SELECT id, name FROM t ORDER BY name ASC".to_string())
    );
    state.column_filters.push(("id".to_string(), "> 1".to_string()));
    assert_eq!(
        state.generate_view_sql("v"),
        Some("SELECT id, name FROM v WHERE id > 1 ORDER BY name ASC".to_string())
    );
    state.set_primary_sort(true);
    state.clear_all_filters();
    assert_eq!(state.generate_view_sql("t"), Some("SELECT id, name FROM t".to_string()));
    hide_column(&mut state, "id");
    hide_column(&mut state, "name");
    assert_eq!(state.generate_view_sql("t"), None);
    assert_eq!(ApplicationState::new().generate_view_sql("t"), None);
}

fn occurs_once(keys: Vec<String>) -> bool {
    let mut seen = keys.clone();
    seen.sort();
    seen.dedup();
    seen.len() == keys.len()
}

#[test]
fn nothing_is_kept_twice_under_one_name() {
    let mut state = table(&["a", "b", "c"]);
    for round in 0..3 {
        for column in ["a", "b", "c", "b"] {
            state.set_column_filter(column.to_string(), format!("> {round}"));
            hide_column(&mut state, column);
            state.reorder_column(round, 2 - round);
        }
        state.clear_column_filter("b");
        state.select_table("u".to_string());
        state.initialize_column_order(names(&["x", "y"]));
        hide_column(&mut state, "x");
        state.reorder_column(0, 1);
        state.set_column_filter("x".to_string(), "= 1".to_string());
        state.select_table("t".to_string());
        state.initialize_column_order(names(&["a", "b", "c"]));
        hide_column(&mut state, "c");
        assert!(occurs_once(state.column_filters.iter().map(|f| f.0.clone()).collect()));
        assert!(occurs_once(state.column_order.iter().map(|o| o.0.clone()).collect()));
        assert!(occurs_once(state.hidden_columns.iter().map(|h| h.0.clone()).collect()));
        for hidden in &state.hidden_columns {
            assert!(occurs_once(hidden.1.clone()));
        }
    }
    assert_eq!(state.hidden_columns.len(), 2);
}
