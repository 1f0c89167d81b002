use ducky::layout::{column_width, rows_that_fit, visible_columns, widest_cell, wrap_row};
use ducky::query::QueryResult;
use ducky::state::viewport::{page_down, scroll_to_show, step_forward};
use ducky::state::ApplicationState;
use ducky::table::{write_header, CellEmphasis};

fn names(list: &[&str]) -> Vec<String> {
    list.iter().map(|s| s.to_string()).collect()
}

fn data(columns: &[&str], rows: &[&[&str]]) -> QueryResult {
    QueryResult {
        columns: names(columns),
        rows: rows.iter().map(|r| names(r)).collect(),
        row_count: rows.len(),
        execution_time_ms: 0,
    }
}

#[test]
fn the_selection_is_in_view_after_the_window_has_followed_it() {
    for visible_rows in 1..6usize {
        for scroll_y in 0..12usize {
            for selected_row in 0..12usize {
                let mut state = ApplicationState::new();
                state.scroll_y = scroll_y;
                state.selected_row = selected_row;
                state.ensure_selection_visible(visible_rows);
                assert!(state.scroll_y <= state.selected_row);
                assert!(state.selected_row < state.scroll_y + visible_rows);
                assert_eq!(state.selected_row, selected_row);
                if scroll_y <= selected_row && selected_row < scroll_y + visible_rows {
                    assert_eq!(state.scroll_y, scroll_y);
                }
            }
        }
    }
}

#[test]
fn the_window_moves_no_further_than_it_has_to() {
    assert_eq!(scroll_to_show(5, 2, 3), 2);
    assert_eq!(scroll_to_show(5, 5, 3), 5);
    assert_eq!(scroll_to_show(5, 7, 3), 5);
    assert_eq!(scroll_to_show(5, 8, 3), 6);
    assert_eq!(scroll_to_show(0, 9, 1), 9);
    assert_eq!(scroll_to_show(0, 9, 0), 10);
    assert_eq!(scroll_to_show(0, usize::MAX, 1), usize::MAX);
}

#[test]
fn the_row_selection_moves_within_the_rows() {
    let mut state = ApplicationState::new();
    state.move_selected_up();
    assert_eq!((state.selected_row, state.scroll_y), (0, 0));
    for _ in 0..5 {
        state.move_selected_down(4, 2);
    }
    assert_eq!((state.selected_row, state.scroll_y), (3, 2));
    state.move_selected_up();
    assert_eq!((state.selected_row, state.scroll_y), (2, 2));
    state.move_selected_up();
    assert_eq!((state.selected_row, state.scroll_y), (1, 1));
    state.move_selected_down(0, 2);
    assert_eq!((state.selected_row, state.scroll_y), (1, 1));
    state.selected_row = usize::MAX;
    state.move_selected_down(usize::MAX, 2);
    assert_eq!(state.selected_row, usize::MAX);
}

#[test]
fn scrolling_stays_within_the_table() {
    let mut state = ApplicationState::new();
    state.scroll_table_left();
    state.scroll_table_up();
    assert_eq!((state.scroll_x, state.scroll_y), (0, 0));
    state.scroll_table_right(5, 3);
    state.scroll_table_right(5, 3);
    state.scroll_table_right(5, 3);
    assert_eq!(state.scroll_x, 2);
    state.scroll_table_right(usize::MAX, usize::MAX);
    assert_eq!(state.scroll_x, 2);
    state.scroll_table_down(3, 5);
    assert_eq!(state.scroll_y, 0);
    state.scroll_table_down(10, 5);
    assert_eq!(state.scroll_y, 1);
    state.scroll_table_left();
    state.scroll_table_up();
    assert_eq!((state.scroll_x, state.scroll_y), (1, 0));
    assert_eq!(step_forward(4, 10, 5), 5);
    assert_eq!(step_forward(5, 10, 5), 5);
}

#[test]
fn paging_stays_within_the_table() {
    let mut state = ApplicationState::new();
    assert_eq!(state.page_size, 20);
    state.page_table_down(100, 10);
    assert_eq!(state.scroll_y, 20);
    state.page_table_down(45, 10);
    assert_eq!(state.scroll_y, 35);
    state.page_table_down(45, 10);
    assert_eq!(state.scroll_y, 35);
    state.page_table_down(5, 10);
    assert_eq!(state.scroll_y, 35);
    state.page_table_up();
    assert_eq!(state.scroll_y, 15);
    state.page_table_up();
    assert_eq!(state.scroll_y, 0);
    assert_eq!(page_down(usize::MAX - 1, 20, usize::MAX, 10), usize::MAX - 10);
    assert_eq!(page_down(3, 20, 5, 10), 3);
}

#[test]
fn column_widths_are_kept_within_bounds() {
    assert_eq!(column_width(3, 5, false), 8);
    assert_eq!(column_width(12, 5, false), 12);
    assert_eq!(column_width(3, 17, true), 17);
    assert_eq!(column_width(30, 5, false), 25);
    assert_eq!(column_width(30, 45, true), 45);
    assert_eq!(column_width(30, 70, true), 50);
    assert_eq!(column_width(0, 0, true), 8);
}

#[test]
fn the_widest_cell_is_found_in_the_rows_that_are_asked_for() {
    let d = data(&["a", "b"], &[&["x", "four"], &["sixsix", "é"], &["x"], &["x", "seven77"]]);
    assert_eq!(widest_cell(&d.rows, 1, 0, 4), 7);
    assert_eq!(widest_cell(&d.rows, 1, 0, 3), 4);
    assert_eq!(widest_cell(&d.rows, 1, 1, 3), 1);
    assert_eq!(widest_cell(&d.rows, 0, 0, 4), 6);
    assert_eq!(widest_cell(&d.rows, 5, 0, 4), 0);
    assert_eq!(widest_cell(&d.rows, 0, 2, 2), 0);
}

#[test]
fn columns_are_packed_from_the_scroll_position() {
    let widths = vec![10, 20, 30, 8];
    assert_eq!(visible_columns(&widths, 30, 0), vec![0, 1]);
    assert_eq!(visible_columns(&widths, 29, 0), vec![0]);
    assert_eq!(visible_columns(&widths, 100, 0), vec![0, 1, 2, 3]);
    assert_eq!(visible_columns(&widths, 50, 1), vec![1, 2]);
    assert_eq!(visible_columns(&widths, 38, 2), vec![2, 3]);
    assert_eq!(visible_columns(&widths, 5, 2), vec![2]);
    assert_eq!(visible_columns(&widths, 0, 3), vec![3]);
    assert_eq!(visible_columns(&widths, 100, 4), Vec::<usize>::new());
    assert_eq!(visible_columns(&Vec::new(), 100, 0), Vec::<usize>::new());
}

#[test]
fn a_row_is_as_high_as_its_tallest_wrapped_cell() {
    let row = names(&["short", "abcdefghijklmnopqrstuvwxyz", "0123456789"]);
    let widths = vec![8, 10, 4];
    assert_eq!(wrap_row(&row, &widths, &vec![0, 1, 2], &vec![]), 1);
    assert_eq!(wrap_row(&row, &widths, &vec![0, 1, 2], &vec![1]), 3);
    assert_eq!(wrap_row(&row, &widths, &vec![0, 1, 2], &vec![2, 0]), 3);
    assert_eq!(wrap_row(&row, &widths, &vec![0, 2], &vec![1]), 1);
    assert_eq!(wrap_row(&row, &widths, &vec![], &vec![1]), 1);
    assert_eq!(wrap_row(&row, &widths, &vec![5], &vec![5]), 1);
    assert_eq!(wrap_row(&row, &vec![8], &vec![1], &vec![1]), 4);
}

#[test]
fn rows_fit_until_the_area_is_full_and_one_at_least() {
    let d = data(
        &["a"],
        &[&["0123456789"], &["01234"], &["0123456789abc"], &["x"], &["y"]],
    );
    let widths = vec![5];
    let visible = vec![0];
    assert_eq!(rows_that_fit(&d.rows, 0, 10, &widths, &visible, &vec![]), 5);
    assert_eq!(rows_that_fit(&d.rows, 0, 3, &widths, &visible, &vec![]), 3);
    assert_eq!(rows_that_fit(&d.rows, 0, 3, &widths, &visible, &vec![0]), 2);
    assert_eq!(rows_that_fit(&d.rows, 0, 5, &widths, &visible, &vec![0]), 2);
    assert_eq!(rows_that_fit(&d.rows, 0, 6, &widths, &visible, &vec![0]), 3);
    assert_eq!(rows_that_fit(&d.rows, 2, 2, &widths, &visible, &vec![0]), 1);
    assert_eq!(rows_that_fit(&d.rows, 2, 0, &widths, &visible, &vec![0]), 1);
    assert_eq!(rows_that_fit(&d.rows, 3, 9, &widths, &visible, &vec![0]), 2);
    assert_eq!(rows_that_fit(&d.rows, 5, 9, &widths, &visible, &vec![0]), 1);
    assert_eq!(rows_that_fit(&d.rows, 9, 9, &widths, &visible, &vec![0]), 1);
}

#[test]
fn headers_carry_sort_and_filter_marks() {
    let mut state = ApplicationState::new();
    assert_eq!(state.get_final_header_text("name"), "name");
    state.selected_column = Some("name".to_string());
    state.toggle_in_sort_chain(true);
    assert_eq!(state.get_final_header_text("name"), "name ↑");
    state.selected_column = Some("age".to_string());
    state.toggle_in_sort_chain(false);
    assert_eq!(state.get_final_header_text("name"), "name ↑^1");
    assert_eq!(state.get_final_header_text("age"), "age ↓^2");
    assert_eq!(state.get_final_header_text("id"), "id");
    state.column_filters.push(("age".to_string(), "> 3".to_string()));
    assert_eq!(state.get_final_header_text("age"), "age ↓^2 *");
    state.column_filters.push(("id".to_string(), "> 3".to_string()));
    assert_eq!(state.get_final_header_text("id"), "id *");
    assert_eq!(write_header("x", &Vec::new(), true), "x *");
}

#[test]
fn the_table_plan_lays_out_what_is_on_display() {
    let mut state = ApplicationState::new();
    state.select_table("t".to_string());
    state.initialize_column_order(names(&["id", "name", "note"]));
    let d = data(
        &["id", "name", "note"],
        &[
            &["1", "Ann", "a note that is much longer than the column is wide"],
            &["2", "Bartholomew Fitzgerald the Third", "x"],
            &["3", "Cy"],
        ],
    );
    state.selected_column = Some("name".to_string());
    state.selected_row = 1;
    let plan = state.plan_table(&d, 48, 10);
    assert_eq!(plan.column_widths, vec![8, 25, 25]);
    assert_eq!(plan.visible_columns, vec![0, 1]);
    assert_eq!(plan.visible_widths, vec![8, 25]);
    let header: Vec<(String, CellEmphasis)> =
        plan.header.iter().map(|c| (c.text.clone(), c.emphasis)).collect();
    assert_eq!(
        header,
        vec![
            ("id".to_string(), CellEmphasis::Plain),
            ("name".to_string(), CellEmphasis::SelectedColumn)
        ]
    );
    assert_eq!(plan.lines.len(), 3);
    assert_eq!(plan.lines[0][1].text, "Ann");
    assert_eq!(plan.lines[0][1].emphasis, CellEmphasis::SelectedColumn);
    assert_eq!(plan.lines[0][0].emphasis, CellEmphasis::Plain);
    assert_eq!(plan.lines[1][0].emphasis, CellEmphasis::SelectedRow);
    assert_eq!(plan.lines[1][1].emphasis, CellEmphasis::Current);
    assert_eq!(plan.lines[1][1].text, "Bartholomew Fitzgerald...");
    assert_eq!(plan.lines[2][1].text, "Cy");

    state.toggle_column_expansion();
    let plan = state.plan_table(&d, 48, 10);
    assert_eq!(plan.column_widths, vec![8, 32, 25]);
    assert_eq!(plan.visible_columns, vec![0, 1]);
    state.selected_column = Some("note".to_string());
    state.toggle_column_expansion();
    state.scroll_x = 2;
    let plan = state.plan_table(&d, 20, 5);
    assert_eq!(plan.column_widths, vec![8, 32, 50]);
    assert_eq!(plan.visible_columns, vec![2]);
    assert_eq!(plan.visible_widths, vec![8]);
    assert_eq!(plan.lines.len(), 2);
    assert_eq!(plan.lines[0][0].text, "a note that is much longer than the column is wide");
    assert_eq!(plan.lines[1][0].text, "x");

    state.scroll_x = 0;
    state.scroll_y = 1;
    let narrow = data(&["id", "name", "note"], &[&["1", "a", "b"], &["2", "c", "0123456789".repeat(11).as_str()]]);
    let plan = state.plan_table(&narrow, 200, 9);
    assert_eq!(plan.column_widths, vec![8, 8, 50]);
    assert_eq!(plan.lines.len(), 3);
    assert_eq!(plan.lines[0][0].text, "2");
    assert_eq!(plan.lines[1][0].text, "");
    assert_eq!(plan.lines[0][2].text, "0123456789".repeat(5));
    assert_eq!(plan.lines[2][2].text, "0123456789");
    assert_eq!(state.calculate_visible_data_rows(200, 9, &narrow), 1);
    assert_eq!(state.calculate_visible_data_rows_from_height(9, &narrow), 1);
    state.scroll_y = 0;
    assert_eq!(state.calculate_visible_data_rows_from_height(9, &narrow), 1);
    assert_eq!(state.calculate_visible_data_rows_from_height(17, &narrow), 1);
    assert_eq!(state.calculate_visible_data_rows_from_height(18, &narrow), 2);
    state.scroll_y = 7;
    assert_eq!(state.plan_table(&narrow, 200, 9).lines.len(), 0);
    assert_eq!(state.calculate_visible_data_rows_from_height(9, &narrow), 1);
}

#[test]
fn the_column_selection_is_in_view_after_the_window_has_followed_it() {
    for visible_columns in 1..4usize {
        for scroll_x in 0..6usize {
            let mut state = ApplicationState::new();
            state.select_table("t".to_string());
            state.initialize_column_order(names(&["a", "b", "c", "d", "e"]));
            state.selected_column = Some("b".to_string());
            state.toggle_column_visibility();
            state.selected_column = Some("d".to_string());
            state.scroll_x = scroll_x;
            state.ensure_column_selection_visible(visible_columns);
            assert!(state.scroll_x <= 2 && 2 < state.scroll_x + visible_columns);
            if scroll_x <= 2 && 2 < scroll_x + visible_columns {
                assert_eq!(state.scroll_x, scroll_x);
            }
            state.selected_column = Some("b".to_string());
            let before = state.scroll_x;
            state.ensure_column_selection_visible(visible_columns);
            assert_eq!(state.scroll_x, before);
            state.selected_column = None;
            state.ensure_column_selection_visible(visible_columns);
            assert_eq!(state.scroll_x, before);
        }
    }
}
