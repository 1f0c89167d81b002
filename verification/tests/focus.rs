use ducky::focus::{
    AppState, DeleteConfirmationState, InspectSection, NavigationPanel, TableCreationStep,
};
use ducky::notify::{remove_expired_after, Notification, NotificationType};
use ducky::state::ApplicationState;

#[test]
fn a_fresh_state_is_ready() {
    let state = ApplicationState::new();
    assert_eq!(state.current_state, AppState::DatabaseBrowser);
    assert_eq!(state.active_panel, NavigationPanel::DatabaseList);
    assert_eq!(state.last_left_panel, NavigationPanel::DatabaseList);
    assert_eq!(state.status_message, "Ready");
    assert_eq!(state.page_size, 20);
    assert_eq!(state.last_table_area_height, 20);
    assert_eq!(state.flash_duration_ms, 1000);
    assert!(state.search_syntax_valid);
    assert!(state.notifications.is_empty());
    assert_eq!(state.delete_confirmation, DeleteConfirmationState::Inactive);
    assert_eq!(state.get_status_display(), "Ready");
    let plain = ApplicationState::default();
    assert_eq!(plain.status_message, "");
    assert_eq!(plain.page_size, 0);
    assert_eq!(plain.flash_duration_ms, 0);
    assert!(!plain.search_syntax_valid);
    assert_eq!(plain.active_panel, NavigationPanel::default());
    assert_eq!(AppState::default(), AppState::DatabaseBrowser);
    assert_eq!(InspectSection::default(), InspectSection::Schema);
    assert_eq!(TableCreationStep::default(), TableCreationStep::EnteringTableName);
    assert_eq!(DeleteConfirmationState::default(), DeleteConfirmationState::Inactive);
}

#[test]
fn the_focus_goes_forward_and_comes_back_to_the_last_left_panel() {
    let mut state = ApplicationState::new();
    state.next_panel();
    assert_eq!(state.active_panel, NavigationPanel::MainContent);
    state.next_panel();
    assert_eq!(state.active_panel, NavigationPanel::DatabaseList);
    state.set_left_panel(NavigationPanel::TableList);
    assert_eq!(state.last_left_panel, NavigationPanel::TableList);
    state.next_panel();
    assert_eq!(state.active_panel, NavigationPanel::MainContent);
    state.next_panel();
    assert_eq!(state.active_panel, NavigationPanel::TableList);
    state.set_active_panel(NavigationPanel::StatusBar);
    assert_eq!(state.last_left_panel, NavigationPanel::TableList);
    state.next_panel();
    assert_eq!(state.active_panel, NavigationPanel::DatabaseList);
    assert_eq!(state.last_left_panel, NavigationPanel::DatabaseList);
    state.set_left_panel(NavigationPanel::MainContent);
    assert_eq!(state.active_panel, NavigationPanel::MainContent);
    assert_eq!(state.last_left_panel, NavigationPanel::DatabaseList);
}

#[test]
fn the_focus_goes_backward_round_the_cycle() {
    let mut state = ApplicationState::new();
    let mut seen = Vec::new();
    for _ in 0..4 {
        state.prev_panel();
        seen.push(state.active_panel);
    }
    assert_eq!(
        seen,
        vec![
            NavigationPanel::StatusBar,
            NavigationPanel::MainContent,
            NavigationPanel::TableList,
            NavigationPanel::DatabaseList
        ]
    );
    assert_eq!(state.last_left_panel, NavigationPanel::DatabaseList);
}

#[test]
fn a_change_of_panel_flashes_and_nothing_else_does() {
    let mut state = ApplicationState::new();
    assert!(!state.is_panel_flashing());
    state.set_active_panel(NavigationPanel::DatabaseList);
    state.set_left_panel(NavigationPanel::DatabaseList);
    assert!(state.panel_flash_timer.is_none());
    assert!(!state.is_panel_flashing());
    assert!(!state.is_panel_flashing_after(0));
    state.next_panel();
    assert!(state.panel_flash_timer.is_some());
    assert!(state.is_panel_flashing());
    assert!(state.is_panel_flashing_after(999));
    assert!(!state.is_panel_flashing_after(1000));
    state.update_flash_timer();
    assert!(state.panel_flash_timer.is_some());
    state.flash_duration_ms = 0;
    assert!(!state.is_panel_flashing());
    state.update_flash_timer();
    assert!(state.panel_flash_timer.is_none());
    state.start_panel_flash();
    assert!(state.panel_flash_timer.is_some());
}

#[test]
fn notifications_stay_for_their_time() {
    let mut state = ApplicationState::new();
    state.show_success("saved".to_string());
    state.show_error("broken".to_string());
    state.show_info("fyi".to_string());
    let seen: Vec<(String, NotificationType, u64)> = state
        .notifications
        .iter()
        .map(|n| (n.message.clone(), n.notification_type, n.duration_secs))
        .collect();
    assert_eq!(
        seen,
        vec![
            ("saved".to_string(), NotificationType::Success, 3),
            ("broken".to_string(), NotificationType::Error, 5),
            ("fyi".to_string(), NotificationType::Info, 3)
        ]
    );
    state.remove_expired_notifications();
    assert_eq!(state.notifications.len(), 3);
    state.notifications[0].duration_secs = 0;
    state.notifications[2].duration_secs = 0;
    state.remove_expired_notifications();
    assert_eq!(state.notifications.len(), 1);
    assert_eq!(state.notifications[0].message, "broken");
    let n = Notification::error("x".to_string());
    assert!(!n.is_expired());
    assert!(!n.is_expired_after(4));
    assert!(n.is_expired_after(5));
    let mut gone = Notification::info("y".to_string());
    gone.duration_secs = 0;
    assert!(gone.is_expired());
    state.add_notification(gone);
    assert_eq!(state.notifications.len(), 2);
}

#[test]
fn the_status_line_names_what_is_selected() {
    let mut state = ApplicationState::new();
    state.set_status("Working".to_string());
    assert_eq!(state.get_status_display(), "Working");
    state.select_database("main".to_string());
    assert_eq!(state.get_status_display(), "Database: main | Working");
    state.select_table("users".to_string());
    assert_eq!(state.get_status_display(), "Database: main | Table: users | Working");
    state.start_table_creation();
    assert_eq!(
        state.get_status_display(),
        "Database: main | Table: users | Creating table... | Ready"
    );
    state.is_modifying = true;
    state.table_creation_step = TableCreationStep::SelectingFile;
    assert_eq!(
        state.get_status_display(),
        "Database: main | Table: users | Selecting file... | MODIFY MODE: h/l to move, H/L for extremes, o to hide/show, Enter to confirm, Esc to cancel | Ready"
    );
    state.is_creating_table = false;
    state.inspect_mode = true;
    state.selected_database = None;
    assert_eq!(
        state.get_status_display(),
        "Table: users | MODIFY MODE: j/k to move, J/K for extremes, o to hide/show, Enter to confirm, Esc to cancel | Ready"
    );
}

#[test]
fn the_creation_wizard_goes_through_its_steps() {
    let mut state = ApplicationState::new();
    state.add_char_to_table_name('x');
    assert_eq!(state.new_table_name, "");
    state.start_table_creation();
    assert!(state.is_creating_table);
    assert_eq!(state.current_state, AppState::ImportWizard);
    state.confirm_table_name();
    assert_eq!(state.table_creation_step, TableCreationStep::EnteringTableName);
    state.add_char_to_table_name(' ');
    state.confirm_table_name();
    assert_eq!(state.table_creation_step, TableCreationStep::EnteringTableName);
    for c in "tab".chars() {
        state.add_char_to_table_name(c);
    }
    state.remove_char_from_table_name();
    assert_eq!(state.new_table_name, " ta");
    state.confirm_table_name();
    assert_eq!(state.table_creation_step, TableCreationStep::SelectingFile);
    state.add_char_to_table_name('z');
    state.remove_char_from_table_name();
    assert_eq!(state.new_table_name, " ta");
    state.set_importing_data();
    assert_eq!(state.table_creation_step, TableCreationStep::ImportingData);
    state.complete_table_creation(true);
    assert!(!state.is_creating_table);
    assert_eq!(state.current_state, AppState::DatabaseBrowser);
    assert_eq!(state.selected_table, Some(" ta".to_string()));
    assert_eq!(state.active_panel, NavigationPanel::TableList);
    assert_eq!(state.new_table_name, "");
    assert_eq!(state.notifications[0].message, "Successfully created table ' ta'");
    assert_eq!(state.notifications[0].notification_type, NotificationType::Success);
    state.start_table_creation();
    state.add_char_to_table_name('q');
    state.complete_table_creation(false);
    assert_eq!(state.selected_table, Some(" ta".to_string()));
    assert_eq!(state.notifications[1].message, "Failed to create table 'q'");
    assert_eq!(state.notifications[1].notification_type, NotificationType::Error);
    state.start_table_creation();
    state.cancel_table_creation();
    assert!(!state.is_creating_table);
    assert_eq!(state.notifications[2].message, "Table creation cancelled");
    assert_eq!(state.notifications[2].notification_type, NotificationType::Info);
}

#[test]
fn the_small_inputs_take_and_drop_characters() {
    let mut state = ApplicationState::new();
    state.start_database_name_input();
    state.add_char_to_database_name('d');
    state.add_char_to_database_name('b');
    state.remove_char_from_database_name();
    assert!(state.is_entering_database_name);
    assert_eq!(state.new_database_name, "d");
    state.cancel_database_name_input();
    assert!(!state.is_entering_database_name);
    assert_eq!(state.new_database_name, "");
    state.remove_char_from_database_name();
    assert_eq!(state.new_database_name, "");
    state.start_save_filename_input();
    state.add_char_to_save_filename('f');
    assert_eq!(state.save_filename, "f");
    state.remove_char_from_save_filename();
    state.remove_char_from_save_filename();
    assert_eq!(state.save_filename, "");
    state.add_char_to_save_filename('g');
    state.cancel_save_filename_input();
    assert!(!state.is_entering_save_filename);
    assert_eq!(state.save_filename, "");
    state.start_view_name_input();
    state.add_char_to_view_name('v');
    state.add_char_to_view_name('é');
    state.remove_char_from_view_name();
    assert_eq!(state.new_view_name, "v");
    state.cancel_view_name_input();
    assert!(!state.is_entering_view_name);
    assert_eq!(state.new_view_name, "");
}

#[test]
fn a_deletion_waits_for_its_confirmation() {
    let mut state = ApplicationState::new();
    assert!(!state.is_delete_confirmation_active());
    state.start_database_delete_confirmation("main".to_string());
    assert!(state.is_delete_confirmation_active());
    assert_eq!(state.delete_confirmation, DeleteConfirmationState::Database("main".to_string()));
    state.start_table_delete_confirmation("users".to_string());
    assert_eq!(state.delete_confirmation, DeleteConfirmationState::Table("users".to_string()));
    state.cancel_delete_confirmation();
    assert!(!state.is_delete_confirmation_active());
}

#[test]
fn the_dropdown_mark_stays_within_the_list() {
    let mut state = ApplicationState::new();
    state.dropdown_selected_index = 7;
    state.expand_database_dropdown(3);
    assert!(state.database_dropdown_expanded);
    assert_eq!(state.dropdown_selected_index, 0);
    state.dropdown_move_up();
    assert_eq!(state.dropdown_selected_index, 0);
    state.dropdown_move_down(3);
    state.dropdown_move_down(3);
    state.dropdown_move_down(3);
    assert_eq!(state.dropdown_selected_index, 2);
    state.dropdown_move_down(0);
    assert_eq!(state.dropdown_selected_index, 2);
    state.dropdown_move_up();
    assert_eq!(state.dropdown_selected_index, 1);
    state.expand_database_dropdown(3);
    assert_eq!(state.dropdown_selected_index, 1);
    state.set_dropdown_to_current_database(2);
    assert_eq!(state.dropdown_selected_index, 2);
    state.collapse_database_dropdown();
    assert!(!state.database_dropdown_expanded);
}

#[test]
fn the_inspect_mode_scrolls_its_sections_apart() {
    let mut state = ApplicationState::new();
    state.enter_inspect_mode();
    assert!(state.inspect_mode);
    state.inspect_scroll_down(10, 4);
    state.inspect_scroll_down(10, 4);
    assert_eq!((state.inspect_schema_scroll_y, state.inspect_stats_scroll_y), (2, 0));
    state.inspect_cycle_section();
    assert_eq!(state.inspect_active_section, InspectSection::Statistics);
    state.inspect_scroll_down(2, 4);
    assert_eq!(state.inspect_stats_scroll_y, 0);
    state.inspect_scroll_down(5, 4);
    state.inspect_scroll_down(5, 4);
    assert_eq!((state.inspect_schema_scroll_y, state.inspect_stats_scroll_y), (2, 1));
    state.inspect_scroll_up();
    state.inspect_scroll_up();
    assert_eq!((state.inspect_schema_scroll_y, state.inspect_stats_scroll_y), (2, 0));
    state.inspect_cycle_section();
    assert_eq!(state.inspect_active_section, InspectSection::Schema);
    for _ in 0..4 {
        state.inspect_move_selection_down(4, 2);
    }
    assert_eq!((state.inspect_selected_row, state.inspect_schema_scroll_y), (3, 2));
    state.inspect_move_selection_up();
    state.inspect_move_selection_up();
    assert_eq!((state.inspect_selected_row, state.inspect_schema_scroll_y), (1, 1));
    state.inspect_move_selection_up();
    state.inspect_move_selection_up();
    assert_eq!((state.inspect_selected_row, state.inspect_schema_scroll_y), (0, 0));
    state.inspect_scroll_down(10, 4);
    state.exit_inspect_mode();
    assert!(!state.inspect_mode);
    assert_eq!(state.inspect_schema_scroll_y, 0);
}

#[test]
fn the_flash_ends_when_its_time_is_over() {
    let mut state = ApplicationState::new();
    state.update_flash_timer_after(5000);
    assert!(state.panel_flash_timer.is_none());
    state.start_panel_flash();
    let started = state.panel_flash_timer;
    state.update_flash_timer_after(0);
    state.update_flash_timer_after(999);
    assert_eq!(state.panel_flash_timer, started);
    assert_eq!(state.active_panel, NavigationPanel::DatabaseList);
    state.update_flash_timer_after(1000);
    assert!(state.panel_flash_timer.is_none());
    state.start_panel_flash();
    state.update_flash_timer_after(u128::MAX);
    assert!(state.panel_flash_timer.is_none());
    state.start_panel_flash();
    state.flash_duration_ms = 0;
    state.update_flash_timer_after(0);
    assert!(state.panel_flash_timer.is_none());
    assert_eq!(state.flash_duration_ms, 0);
}

fn messages(state: &ApplicationState) -> Vec<String> {
    state.notifications.iter().map(|n| n.message.clone()).collect()
}

#[test]
fn notifications_leave_when_they_have_lasted_their_time() {
    let mut state = ApplicationState::new();
    state.show_success("a".to_string());
    state.show_error("b".to_string());
    state.show_info("c".to_string());
    state.show_error("d".to_string());
    state.remove_expired_after(&vec![2, 4, 1, 0]);
    assert_eq!(messages(&state), vec!["a", "b", "c", "d"]);
    state.remove_expired_after(&vec![3, 4, 2, 5]);
    assert_eq!(messages(&state), vec!["b", "c"]);
    assert_eq!(state.notifications[0].notification_type, NotificationType::Error);
    state.remove_expired_after(&vec![9]);
    assert_eq!(messages(&state), vec!["c"]);
    state.remove_expired_after(&Vec::new());
    assert_eq!(messages(&state), vec!["c"]);
    state.remove_expired_after(&vec![3, 0, 0]);
    assert!(state.notifications.is_empty());
    state.remove_expired_after(&vec![7]);
    assert!(state.notifications.is_empty());
    assert_eq!(state.status_message, "Ready");
}

#[test]
fn each_notification_is_read_against_its_own_clock() {
    let mut list = vec![
        Notification::info("x".to_string()),
        Notification::error("y".to_string()),
        Notification::success("z".to_string()),
    ];
    remove_expired_after(&mut list, &vec![2, 5, 3]);
    assert_eq!(list.len(), 1);
    assert_eq!(list[0].message, "x");
    assert_eq!(list[0].duration_secs, 3);
}
