//! The state of the browser: one owned aggregate that every handler takes
//! by exclusive reference. Contracts speak of its model, `StateModel`,
//! which holds every field as a mathematical value.

use crate::focus::{
    AppState, DeleteConfirmationModel, DeleteConfirmationState, InspectSection, NavigationPanel,
    TableCreationStep,
};
use crate::names::Name;
use crate::notify::{Notification, NotificationModel};
use crate::query::{QueryResult, QueryResultModel};
use crate::sort::{SortColumnSpec, SortKey};
use std::time::Instant;
use vstd::prelude::*;
use vstd::string::*;

pub mod basics;
pub mod columns;
pub mod filters;
pub mod focus;
pub mod inspect;
pub mod laws;
pub mod model;
pub mod modify;
pub mod navigate;
pub mod sorting;
pub mod sql;
pub mod viewport;

verus! {

#[derive(Debug, Clone)]
pub struct ApplicationState {
    pub current_state: AppState,
    pub active_panel: NavigationPanel,
    pub selected_database: Option<String>,
    pub selected_table: Option<String>,
    pub status_message: String,
    pub is_creating_table: bool,
    pub new_table_name: String,
    pub table_creation_step: TableCreationStep,
    pub notifications: Vec<Notification>,
    pub table_data: Option<QueryResult>,
    pub scroll_x: usize,
    pub scroll_y: usize,
    pub selected_row: usize,
    /// The selected column, by name, so that it survives reordering and
    /// hiding.
    pub selected_column: Option<String>,
    pub page_size: usize,
    /// Height of the table area at the last draw, for moves made from the
    /// keyboard.
    pub last_table_area_height: u16,
    pub database_dropdown_expanded: bool,
    pub dropdown_selected_index: usize,
    /// The left-hand panel to go back to from the main content.
    pub last_left_panel: NavigationPanel,
    pub panel_flash_timer: Option<Instant>,
    pub flash_duration_ms: u64,
    pub delete_confirmation: DeleteConfirmationState,
    pub is_entering_database_name: bool,
    pub new_database_name: String,
    pub is_entering_save_filename: bool,
    pub save_filename: String,
    pub is_entering_view_name: bool,
    pub new_view_name: String,
    /// Expanded columns, by position in the current column order.
    pub expanded_columns: Vec<usize>,
    pub sort_columns: Vec<SortColumnSpec>,
    pub is_searching: bool,
    pub search_column: Option<usize>,
    pub search_text: String,
    pub search_syntax_valid: bool,
    pub search_debounce_timer: Option<Instant>,
    /// Column name and filter text, in the order in which columns were
    /// first filtered.
    pub column_filters: Vec<(String, String)>,
    pub inspect_mode: bool,
    pub inspect_active_section: InspectSection,
    pub inspect_schema_scroll_y: usize,
    pub inspect_stats_scroll_y: usize,
    pub inspect_selected_row: usize,
    /// Table name and the display order of its columns.
    pub column_order: Vec<(String, Vec<String>)>,
    /// The columns of the selected table in schema order.
    pub original_column_names: Vec<String>,
    pub is_modifying: bool,
    /// The column order to go back to when a modification is cancelled.
    pub modify_backup_column_order: Option<Vec<String>>,
    /// Table name and the names of its hidden columns.
    pub hidden_columns: Vec<(String, Vec<String>)>,
}

/// The state as contracts see it.
pub ghost struct StateModel {
    pub current_state: AppState,
    pub active_panel: NavigationPanel,
    pub selected_database: Option<Name>,
    pub selected_table: Option<Name>,
    pub status_message: Seq<char>,
    pub is_creating_table: bool,
    pub new_table_name: Seq<char>,
    pub table_creation_step: TableCreationStep,
    pub notifications: Seq<NotificationModel>,
    pub table_data: Option<QueryResultModel>,
    pub scroll_x: usize,
    pub scroll_y: usize,
    pub selected_row: usize,
    pub selected_column: Option<Name>,
    pub page_size: usize,
    pub last_table_area_height: u16,
    pub database_dropdown_expanded: bool,
    pub dropdown_selected_index: usize,
    pub last_left_panel: NavigationPanel,
    pub panel_flash_timer: Option<Instant>,
    pub flash_duration_ms: u64,
    pub delete_confirmation: DeleteConfirmationModel,
    pub is_entering_database_name: bool,
    pub new_database_name: Seq<char>,
    pub is_entering_save_filename: bool,
    pub save_filename: Seq<char>,
    pub is_entering_view_name: bool,
    pub new_view_name: Seq<char>,
    pub expanded_columns: Set<usize>,
    pub sort_columns: Seq<SortKey>,
    pub is_searching: bool,
    pub search_column: Option<usize>,
    pub search_text: Seq<char>,
    pub search_syntax_valid: bool,
    pub search_debounce_timer: Option<Instant>,
    pub column_filters: Seq<(Name, Seq<char>)>,
    pub inspect_mode: bool,
    pub inspect_active_section: InspectSection,
    pub inspect_schema_scroll_y: usize,
    pub inspect_stats_scroll_y: usize,
    pub inspect_selected_row: usize,
    pub column_order: Seq<(Name, Seq<Name>)>,
    pub original_column_names: Seq<Name>,
    pub is_modifying: bool,
    pub modify_backup_column_order: Option<Seq<Name>>,
    pub hidden_columns: Seq<(Name, Seq<Name>)>,
}

/// The model of a state: every field as a mathematical value. Functions
/// that read or write fields unfold it; everything else reasons about the
/// model alone.
#[verifier::opaque]
pub open spec fn model_of(state: &ApplicationState) -> StateModel {
    StateModel {
        current_state: state.current_state,
        active_panel: state.active_panel,
        selected_database: state.selected_database.deep_view(),
        selected_table: state.selected_table.deep_view(),
        status_message: state.status_message@,
        is_creating_table: state.is_creating_table,
        new_table_name: state.new_table_name@,
        table_creation_step: state.table_creation_step,
        notifications: state.notifications.deep_view(),
        table_data: state.table_data.deep_view(),
        scroll_x: state.scroll_x,
        scroll_y: state.scroll_y,
        selected_row: state.selected_row,
        selected_column: state.selected_column.deep_view(),
        page_size: state.page_size,
        last_table_area_height: state.last_table_area_height,
        database_dropdown_expanded: state.database_dropdown_expanded,
        dropdown_selected_index: state.dropdown_selected_index,
        last_left_panel: state.last_left_panel,
        panel_flash_timer: state.panel_flash_timer,
        flash_duration_ms: state.flash_duration_ms,
        delete_confirmation: state.delete_confirmation.deep_view(),
        is_entering_database_name: state.is_entering_database_name,
        new_database_name: state.new_database_name@,
        is_entering_save_filename: state.is_entering_save_filename,
        save_filename: state.save_filename@,
        is_entering_view_name: state.is_entering_view_name,
        new_view_name: state.new_view_name@,
        expanded_columns: state.expanded_columns@.to_set(),
        sort_columns: state.sort_columns.deep_view(),
        is_searching: state.is_searching,
        search_column: state.search_column,
        search_text: state.search_text@,
        search_syntax_valid: state.search_syntax_valid,
        search_debounce_timer: state.search_debounce_timer,
        column_filters: state.column_filters.deep_view(),
        inspect_mode: state.inspect_mode,
        inspect_active_section: state.inspect_active_section,
        inspect_schema_scroll_y: state.inspect_schema_scroll_y,
        inspect_stats_scroll_y: state.inspect_stats_scroll_y,
        inspect_selected_row: state.inspect_selected_row,
        column_order: state.column_order.deep_view(),
        original_column_names: state.original_column_names.deep_view(),
        is_modifying: state.is_modifying,
        modify_backup_column_order: state.modify_backup_column_order.deep_view(),
        hidden_columns: state.hidden_columns.deep_view(),
    }
}

impl View for ApplicationState {
    type V = StateModel;

    open spec fn view(&self) -> StateModel {
        model_of(self)
    }
}

/// The model holds every plain field as it is.
pub proof fn lemma_model_scalars(state: &ApplicationState)
    ensures
        state@.current_state == state.current_state,
        state@.active_panel == state.active_panel,
        state@.is_creating_table == state.is_creating_table,
        state@.table_creation_step == state.table_creation_step,
        state@.scroll_x == state.scroll_x,
        state@.scroll_y == state.scroll_y,
        state@.selected_row == state.selected_row,
        state@.page_size == state.page_size,
        state@.last_table_area_height == state.last_table_area_height,
        state@.database_dropdown_expanded == state.database_dropdown_expanded,
        state@.dropdown_selected_index == state.dropdown_selected_index,
        state@.last_left_panel == state.last_left_panel,
        state@.panel_flash_timer == state.panel_flash_timer,
        state@.flash_duration_ms == state.flash_duration_ms,
        state@.is_entering_database_name == state.is_entering_database_name,
        state@.is_entering_save_filename == state.is_entering_save_filename,
        state@.is_entering_view_name == state.is_entering_view_name,
        state@.is_searching == state.is_searching,
        state@.search_column == state.search_column,
        state@.search_syntax_valid == state.search_syntax_valid,
        state@.search_debounce_timer == state.search_debounce_timer,
        state@.inspect_mode == state.inspect_mode,
        state@.inspect_active_section == state.inspect_active_section,
        state@.inspect_schema_scroll_y == state.inspect_schema_scroll_y,
        state@.inspect_stats_scroll_y == state.inspect_stats_scroll_y,
        state@.inspect_selected_row == state.inspect_selected_row,
        state@.is_modifying == state.is_modifying,
{
    reveal(model_of);
}

/// The model holds every text field by its characters.
pub proof fn lemma_model_texts(state: &ApplicationState)
    ensures
        state@.selected_database == state.selected_database.deep_view(),
        state@.selected_table == state.selected_table.deep_view(),
        state@.selected_column == state.selected_column.deep_view(),
        state@.status_message == state.status_message@,
        state@.new_table_name == state.new_table_name@,
        state@.new_database_name == state.new_database_name@,
        state@.save_filename == state.save_filename@,
        state@.new_view_name == state.new_view_name@,
        state@.search_text == state.search_text@,
        state@.delete_confirmation == state.delete_confirmation.deep_view(),
        state@.table_data == state.table_data.deep_view(),
{
    reveal(model_of);
}

/// The status line of a fresh state.
pub open spec fn ready_text() -> Seq<char> {
    seq!['R', 'e', 'a', 'd', 'y']
}

/// Rows that a page move covers in a fresh state, and the height assumed
/// for the table area before the first draw.
pub const DEFAULT_PAGE_SIZE: usize = 20;

/// Milliseconds that a panel flashes after it has taken the focus.
pub const FLASH_DURATION_MS: u64 = 1000;

/// The model of a fresh state.
pub open spec fn initial_model() -> StateModel {
    StateModel {
        current_state: AppState::DatabaseBrowser,
        active_panel: NavigationPanel::DatabaseList,
        selected_database: None,
        selected_table: None,
        status_message: ready_text(),
        is_creating_table: false,
        new_table_name: Seq::empty(),
        table_creation_step: TableCreationStep::EnteringTableName,
        notifications: Seq::empty(),
        table_data: None,
        scroll_x: 0,
        scroll_y: 0,
        selected_row: 0,
        selected_column: None,
        page_size: DEFAULT_PAGE_SIZE,
        last_table_area_height: 20,
        database_dropdown_expanded: false,
        dropdown_selected_index: 0,
        last_left_panel: NavigationPanel::DatabaseList,
        panel_flash_timer: None,
        flash_duration_ms: FLASH_DURATION_MS,
        delete_confirmation: DeleteConfirmationModel::Inactive,
        is_entering_database_name: false,
        new_database_name: Seq::empty(),
        is_entering_save_filename: false,
        save_filename: Seq::empty(),
        is_entering_view_name: false,
        new_view_name: Seq::empty(),
        expanded_columns: Set::empty(),
        sort_columns: Seq::empty(),
        is_searching: false,
        search_column: None,
        search_text: Seq::empty(),
        search_syntax_valid: true,
        search_debounce_timer: None,
        column_filters: Seq::empty(),
        inspect_mode: false,
        inspect_active_section: InspectSection::Schema,
        inspect_schema_scroll_y: 0,
        inspect_stats_scroll_y: 0,
        inspect_selected_row: 0,
        column_order: Seq::empty(),
        original_column_names: Seq::empty(),
        is_modifying: false,
        modify_backup_column_order: None,
        hidden_columns: Seq::empty(),
    }
}

/// The text "Ready".
pub(crate) fn ready() -> (text: String)
    ensures
        text@ == ready_text(),
{
    proof {
        reveal_strlit("Ready");
    }
    let text = "Ready".to_owned();
    assert(text@ =~= ready_text());
    text
}

/// The model of a state in which every field has its default: as a fresh
/// state, but with an empty status line, pages and flashes of no length,
/// and a filter text that does not count as valid.
pub open spec fn default_model() -> StateModel {
    StateModel {
        status_message: Seq::empty(),
        page_size: 0,
        last_table_area_height: 0,
        flash_duration_ms: 0,
        search_syntax_valid: false,
        ..initial_model()
    }
}

impl Default for ApplicationState {
    fn default() -> (state: Self)
        ensures
            state@ == default_model(),
            state@.well_formed(),
    {
        let state = Self {
            current_state: AppState::DatabaseBrowser,
            active_panel: NavigationPanel::DatabaseList,
            selected_database: None,
            selected_table: None,
            status_message: String::new(),
            is_creating_table: false,
            new_table_name: String::new(),
            table_creation_step: TableCreationStep::EnteringTableName,
            notifications: Vec::new(),
            table_data: None,
            scroll_x: 0,
            scroll_y: 0,
            selected_row: 0,
            selected_column: None,
            page_size: 0,
            last_table_area_height: 0,
            database_dropdown_expanded: false,
            dropdown_selected_index: 0,
            last_left_panel: NavigationPanel::DatabaseList,
            panel_flash_timer: None,
            flash_duration_ms: 0,
            delete_confirmation: DeleteConfirmationState::Inactive,
            is_entering_database_name: false,
            new_database_name: String::new(),
            is_entering_save_filename: false,
            save_filename: String::new(),
            is_entering_view_name: false,
            new_view_name: String::new(),
            expanded_columns: Vec::new(),
            sort_columns: Vec::new(),
            is_searching: false,
            search_column: None,
            search_text: String::new(),
            search_syntax_valid: false,
            search_debounce_timer: None,
            column_filters: Vec::new(),
            inspect_mode: false,
            inspect_active_section: InspectSection::Schema,
            inspect_schema_scroll_y: 0,
            inspect_stats_scroll_y: 0,
            inspect_selected_row: 0,
            column_order: Vec::new(),
            original_column_names: Vec::new(),
            is_modifying: false,
            modify_backup_column_order: None,
            hidden_columns: Vec::new(),
        };
        proof {
            reveal(model_of);
            assert(state.notifications.deep_view() =~= Seq::empty());
            assert(state.sort_columns.deep_view() =~= Seq::empty());
            assert(state.expanded_columns@.to_set() =~= Set::empty());
            assert(state.column_filters.deep_view() =~= Seq::empty());
            assert(state.column_order.deep_view() =~= Seq::empty());
            assert(state.original_column_names.deep_view() =~= Seq::empty());
            assert(state.hidden_columns.deep_view() =~= Seq::empty());
            crate::state::model::lemma_empty_lists_are_sound();
        }
        state
    }
}

impl ApplicationState {
    /// A fresh state: the database list has the focus, nothing is selected,
    /// no modal is open and the status line reads "Ready".
    pub fn new() -> (state: Self)
        ensures
            state@ == initial_model(),
            state@.well_formed(),
    {
        proof {
            reveal(model_of);
        }
        let state = Self {
            current_state: AppState::DatabaseBrowser,
            active_panel: NavigationPanel::DatabaseList,
            selected_database: None,
            selected_table: None,
            status_message: ready(),
            is_creating_table: false,
            new_table_name: String::new(),
            table_creation_step: TableCreationStep::EnteringTableName,
            notifications: Vec::new(),
            table_data: None,
            scroll_x: 0,
            scroll_y: 0,
            selected_row: 0,
            selected_column: None,
            page_size: DEFAULT_PAGE_SIZE,
            last_table_area_height: 20,
            database_dropdown_expanded: false,
            dropdown_selected_index: 0,
            last_left_panel: NavigationPanel::DatabaseList,
            panel_flash_timer: None,
            flash_duration_ms: FLASH_DURATION_MS,
            delete_confirmation: DeleteConfirmationState::Inactive,
            is_entering_database_name: false,
            new_database_name: String::new(),
            is_entering_save_filename: false,
            save_filename: String::new(),
            is_entering_view_name: false,
            new_view_name: String::new(),
            expanded_columns: Vec::new(),
            sort_columns: Vec::new(),
            is_searching: false,
            search_column: None,
            search_text: String::new(),
            search_syntax_valid: true,
            search_debounce_timer: None,
            column_filters: Vec::new(),
            inspect_mode: false,
            inspect_active_section: InspectSection::Schema,
            inspect_schema_scroll_y: 0,
            inspect_stats_scroll_y: 0,
            inspect_selected_row: 0,
            column_order: Vec::new(),
            original_column_names: Vec::new(),
            is_modifying: false,
            modify_backup_column_order: None,
            hidden_columns: Vec::new(),
        };
        proof {
            reveal(model_of);
            assert(state.notifications.deep_view() =~= Seq::empty());
            assert(state.sort_columns.deep_view() =~= Seq::empty());
            assert(state.expanded_columns@.to_set() =~= Set::empty());
            assert(state.column_filters.deep_view() =~= Seq::empty());
            assert(state.column_order.deep_view() =~= Seq::empty());
            assert(state.original_column_names.deep_view() =~= Seq::empty());
            assert(state.hidden_columns.deep_view() =~= Seq::empty());
            crate::state::model::lemma_empty_lists_are_sound();
        }
        state
    }
}

} // verus!
