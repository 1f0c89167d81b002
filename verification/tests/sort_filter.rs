use ducky::sort::{render_order_by, toggle_in_chain, toggle_primary, SortColumnSpec, SortDirection};
use ducky::state::filters::render_where;
use ducky::state::ApplicationState;

fn chain_of(chain: &Vec<SortColumnSpec>) -> Vec<(String, SortDirection)> {
    chain.iter().map(|s| (s.column_name.clone(), s.direction)).collect()
}

fn names(list: &[&str]) -> Vec<String> {
    list.iter().map(|s| s.to_string()).collect()
}

#[test]
fn toggle_primary_twice_clears_the_chain() {
    let mut chain = Vec::new();
    toggle_primary(&mut chain, "x", true);
    assert_eq!(chain_of(&chain), vec![("x".to_string(), SortDirection::Ascending)]);
    toggle_primary(&mut chain, "x", true);
    assert!(chain.is_empty());
}

#[test]
fn toggle_primary_with_other_direction_replaces_the_entry() {
    let mut chain = Vec::new();
    toggle_primary(&mut chain, "x", true);
    toggle_primary(&mut chain, "x", false);
    assert_eq!(chain_of(&chain), vec![("x".to_string(), SortDirection::Descending)]);
}

#[test]
fn toggle_primary_replaces_a_whole_chain() {
    let mut chain = Vec::new();
    toggle_in_chain(&mut chain, "a", true);
    toggle_in_chain(&mut chain, "b", false);
    toggle_primary(&mut chain, "b", false);
    assert_eq!(chain_of(&chain), vec![("b".to_string(), SortDirection::Descending)]);
    toggle_in_chain(&mut chain, "a", true);
    toggle_primary(&mut chain, "b", false);
    assert!(chain.is_empty());
}

#[test]
fn toggle_in_chain_keeps_the_order_of_arrival() {
    let mut chain = Vec::new();
    toggle_in_chain(&mut chain, "a", true);
    toggle_in_chain(&mut chain, "b", false);
    assert_eq!(
        chain_of(&chain),
        vec![
            ("a".to_string(), SortDirection::Ascending),
            ("b".to_string(), SortDirection::Descending)
        ]
    );
    toggle_in_chain(&mut chain, "a", true);
    assert_eq!(chain_of(&chain), vec![("b".to_string(), SortDirection::Descending)]);
}

#[test]
fn toggle_in_chain_turns_an_entry_round_in_place() {
    let mut chain = Vec::new();
    toggle_in_chain(&mut chain, "a", true);
    toggle_in_chain(&mut chain, "b", true);
    toggle_in_chain(&mut chain, "c", true);
    toggle_in_chain(&mut chain, "b", false);
    assert_eq!(
        chain_of(&chain),
        vec![
            ("a".to_string(), SortDirection::Ascending),
            ("b".to_string(), SortDirection::Descending),
            ("c".to_string(), SortDirection::Ascending)
        ]
    );
}

#[test]
fn order_by_lists_the_chain_in_order() {
    let mut chain = Vec::new();
    assert_eq!(render_order_by(&chain, &names(&["a", "b"])), None);
    toggle_in_chain(&mut chain, "a", true);
    assert_eq!(render_order_by(&chain, &names(&["a", "b"])), Some("ORDER BY a ASC".to_string()));
    toggle_in_chain(&mut chain, "b", false);
    assert_eq!(
        render_order_by(&chain, &names(&["a", "b"])),
        Some("ORDER BY a ASC, b DESC".to_string())
    );
}

#[test]
fn order_by_skips_columns_that_are_not_known() {
    let mut chain = Vec::new();
    toggle_in_chain(&mut chain, "gone", true);
    toggle_in_chain(&mut chain, "b", false);
    toggle_in_chain(&mut chain, "also_gone", false);
    assert_eq!(render_order_by(&chain, &names(&["a", "b"])), Some("ORDER BY b DESC".to_string()));
    assert_eq!(render_order_by(&chain, &names(&["a"])), None);
    assert_eq!(render_order_by(&chain, &[]), None);
}

#[test]
fn where_joins_the_filters_with_and() {
    let mut filters: Vec<(String, String)> = Vec::new();
    assert_eq!(render_where(&filters), None);
    filters.push(("age".to_string(), "> 30".to_string()));
    assert_eq!(render_where(&filters), Some("WHERE age > 30".to_string()));
    filters.push(("name".to_string(), "LIKE 'J%'".to_string()));
    assert_eq!(render_where(&filters), Some("WHERE age > 30 AND name LIKE 'J%'".to_string()));
}

#[test]
fn state_sorts_by_the_selected_column() {
    let mut state = ApplicationState::new();
    state.set_primary_sort(true);
    assert!(state.sort_columns.is_empty());
    state.selected_column = Some("x".to_string());
    state.set_primary_sort(true);
    assert!(state.is_column_in_sort_chain("x"));
    assert!(!state.is_column_in_sort_chain("y"));
    assert_eq!(state.get_sort_sql_clause(&names(&["x"])), Some("ORDER BY x ASC".to_string()));
    state.selected_column = Some("y".to_string());
    state.toggle_in_sort_chain(false);
    assert_eq!(
        state.get_sort_sql_clause(&names(&["x", "y"])),
        Some("ORDER BY x ASC, y DESC".to_string())
    );
    state.set_column_filter("x".to_string(), "> 1".to_string());
    state.clear_sort();
    assert_eq!(state.get_sort_sql_clause(&names(&["x", "y"])), None);
    assert_eq!(state.get_filter_sql_clause(&names(&["x", "y"])), None);
    assert!(state.sort_columns.is_empty());
    assert!(state.column_filters.is_empty());
    assert_eq!(state.selected_column, Some("y".to_string()));
}

#[test]
fn state_keeps_one_filter_for_each_column() {
    let mut state = ApplicationState::new();
    state.select_table("t".to_string());
    state.initialize_column_order(names(&["id", "name", "age"]));
    state.start_column_search(2);
    assert!(state.is_searching);
    assert!(state.is_column_expanded(2));
    for c in "  > 30 ".chars() {
        state.add_char_to_search(c);
    }
    assert!(state.finalize_search());
    assert!(!state.is_searching);
    assert_eq!(state.search_text, "");
    assert!(state.is_column_filtered("age"));
    assert_eq!(state.get_filter_sql_clause(&[]), Some("WHERE age > 30".to_string()));
    state.start_column_search(1);
    for c in "= 'Jo'".chars() {
        state.add_char_to_search(c);
    }
    state.remove_char_from_search();
    state.add_char_to_search('\'');
    assert!(state.finalize_search());
    state.start_column_search(2);
    for c in "< 5".chars() {
        state.add_char_to_search(c);
    }
    assert!(state.finalize_search());
    assert_eq!(
        state.get_filter_sql_clause(&[]),
        Some("WHERE age < 5 AND name = 'Jo'".to_string())
    );
    state.clear_column_filter("age");
    assert!(!state.is_column_filtered("age"));
    assert_eq!(state.get_filter_sql_clause(&[]), Some("WHERE name = 'Jo'".to_string()));
    state.clear_all_filters();
    assert_eq!(state.get_filter_sql_clause(&[]), None);
}

#[test]
fn a_filter_is_not_committed_when_it_should_not_be() {
    let mut state = ApplicationState::new();
    state.select_table("t".to_string());
    state.initialize_column_order(names(&["id"]));
    assert!(!state.finalize_search());
    state.start_column_search(0);
    state.add_char_to_search(' ');
    assert!(!state.finalize_search());
    assert!(state.is_searching);
    state.add_char_to_search('x');
    state.search_syntax_valid = false;
    assert!(!state.finalize_search());
    state.search_syntax_valid = true;
    state.search_column = Some(7);
    assert!(!state.finalize_search());
    state.search_column = None;
    assert!(!state.finalize_search());
    state.cancel_search();
    assert!(!state.is_searching);
    assert!(state.column_filters.is_empty());
    state.add_char_to_search('x');
    assert_eq!(state.search_text, "");
}

#[test]
fn the_pause_in_typing_counts_from_the_last_key() {
    let mut state = ApplicationState::new();
    assert!(!state.should_debounce_update());
    assert!(!state.should_debounce_update_after(10_000));
    state.start_column_search(0);
    state.add_char_to_search('x');
    assert!(!state.should_debounce_update());
    assert!(!state.should_debounce_update_after(599));
    assert!(state.should_debounce_update_after(600));
}

#[test]
fn a_filter_is_set_in_place_or_behind_the_others() {
    let mut state = ApplicationState::new();
    state.set_column_filter("a".to_string(), "> 1".to_string());
    state.set_column_filter("b".to_string(), "< 2".to_string());
    state.set_column_filter("a".to_string(), "= 3".to_string());
    assert_eq!(
        state.column_filters,
        vec![("a".to_string(), "= 3".to_string()), ("b".to_string(), "< 2".to_string())]
    );
    assert_eq!(state.get_filter_sql_clause(&[]), Some("WHERE a = 3 AND b < 2".to_string()));
    state.clear_sort();
    assert!(state.column_filters.is_empty());
}

#[test]
fn the_filter_input_expands_the_column_where_it_is_drawn() {
    let mut state = ApplicationState::new();
    state.select_table("t".to_string());
    state.initialize_column_order(names(&["id", "name", "age"]));
    state.selected_column = Some("id".to_string());
    state.toggle_column_visibility();
    assert_eq!(state.get_visible_column_names(), names(&["name", "age"]));
    assert_eq!(state.visible_position_of(0), None);
    assert_eq!(state.visible_position_of(1), Some(0));
    assert_eq!(state.visible_position_of(2), Some(1));
    assert_eq!(state.visible_position_of(3), None);
    state.start_column_search(2);
    assert_eq!(state.search_column, Some(2));
    assert!(state.is_column_expanded(1));
    assert!(!state.is_column_expanded(2));
    assert!(!state.is_column_expanded(0));
    state.add_char_to_search('1');
    assert!(state.finalize_search());
    assert!(state.is_column_filtered("age"));
    state.start_column_search(0);
    assert_eq!(state.search_column, Some(0));
    assert!(state.is_searching);
    assert!(!state.is_column_expanded(0));
    state.cancel_search();
    state.start_column_search(9);
    assert_eq!(state.search_column, Some(9));
    assert_eq!(state.expanded_columns, vec![1]);
}
