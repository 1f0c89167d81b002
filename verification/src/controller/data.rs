//! Fetching table data: the column names first, then the query built from
//! the visible columns, the filters and the sort chain, then the result
//! into the state.

use crate::controller::{
    no_commands, one_command, App, AppModel, Command, CommandModel, Refresh,
};
use crate::names::{put_entry, with_entry, Name};
use crate::notify::NotificationType;
use crate::query::{QueryResult, QueryResultModel};
use crate::sort::order_by_clause;
use crate::state::basics::notified;
use crate::state::filters::{render_where, where_clause};
use crate::state::sql::{build_select, select_statement};
use crate::state::{lemma_model_scalars, lemma_model_texts, ApplicationState, StateModel};
use crate::strings::{trim_text, trimmed};
use crate::state::model_of;
use vstd::prelude::*;
use vstd::string::*;

verus! {

/// Why the column names of a table could not be had.
#[derive(Debug, Clone, PartialEq, Eq)]
pub enum LoadError {
    /// No connection to the current database is open.
    NoConnection,
    /// The engine refused, with these words.
    Failed(String),
}

/// The most rows that a capped fetch takes in.
pub const ROW_CAP: usize = 1000;

/// How many rows a fetch for `purpose` takes in at most: all of them
/// where there is no cap.
pub open spec fn row_cap(purpose: Refresh) -> Option<usize> {
    match purpose {
        Refresh::Rows { limit: false } => None,
        _ => Some(ROW_CAP),
    }
}

impl Refresh {
    /// How many rows a fetch for this purpose takes in at most.
    pub fn row_cap(self) -> (cap: Option<usize>)
        ensures
            cap == row_cap(self),
    {
        match self {
            Refresh::Rows { limit: false } => None,
            _ => Some(ROW_CAP),
        }
    }
}

impl StateModel {
    /// The state with the column names of the selected table taken note
    /// of, as `initialize_column_order` leaves it.
    pub open spec fn with_columns(self, names: Seq<Name>) -> StateModel {
        let original = if self.original_column_names.len() == 0 {
            names
        } else {
            self.original_column_names
        };
        StateModel {
            original_column_names: original,
            column_order: match self.selected_table {
                Some(table) => if crate::names::lookup(self.column_order, table) is None {
                    with_entry(self.column_order, table, original)
                } else {
                    self.column_order
                },
                None => self.column_order,
            },
            ..self
        }
    }

    /// The filters that a preview tries out: those that are set, with the
    /// text in the filter input as the filter of the column that the input
    /// is open for.
    pub open spec fn preview_filters(self) -> Seq<(Name, Seq<char>)> {
        match self.search_column {
            Some(i) => if i < self.virtual_order().len() {
                with_entry(
                    self.column_filters,
                    self.virtual_order()[i as int],
                    trimmed(self.search_text),
                )
            } else {
                self.column_filters
            },
            None => self.column_filters,
        }
    }

    /// The WHERE clause of a fetch for `purpose`. A table that was just
    /// selected is fetched without one.
    pub open spec fn fetch_filter(self, purpose: Refresh) -> Option<Seq<char>> {
        match purpose {
            Refresh::Initial => None,
            Refresh::Preview => where_clause(self.preview_filters()),
            _ => where_clause(self.column_filters),
        }
    }

    /// The query of a fetch for `purpose` from `table`, whose columns the
    /// engine gave as `known`: the visible columns in display order, the
    /// filters, and the sort chain over the known columns.
    pub open spec fn data_query(self, table: Name, purpose: Refresh, known: Seq<Name>) -> Seq<char> {
        select_statement(
            self.visible_column_names(),
            table,
            self.fetch_filter(purpose),
            order_by_clause(self.sort_columns, known),
        )
    }

    /// The state with the result of a fetch for `purpose` taken in.
    pub open spec fn with_data(self, purpose: Refresh, data: QueryResultModel) -> StateModel {
        match purpose {
            Refresh::Initial => StateModel {
                table_data: Some(data),
                scroll_x: 0,
                scroll_y: 0,
                selected_row: 0,
                selected_column: None,
                ..self
            },
            Refresh::Layout => self.with_layout_replaced(data),
            _ => self.with_rows_replaced(data),
        }
    }

    /// The statement that tells whether the engine takes the text in the
    /// filter input as a condition on the column that the input is open
    /// for. There is none where the input is closed, the text is blank, or
    /// table, data or column are not at hand.
    pub open spec fn filter_check(self) -> Option<Seq<char>> {
        if !self.is_searching || trimmed(self.search_text).len() == 0 {
            None
        } else {
            match (self.search_column, self.selected_table, self.table_data) {
                (Some(i), Some(table), Some(data)) => if i < data.columns.len() {
                    Some(
                        "SELECT COUNT(*) FROM "@ + table + " WHERE "@ + data.columns[i as int]
                            + " "@ + trimmed(self.search_text),
                    )
                } else {
                    None
                },
                _ => None,
            }
        }
    }
}

impl ApplicationState {
    /// The filters that a preview tries out.
    fn preview_filters(&self) -> (filters: Vec<(String, String)>)
        ensures
            filters.deep_view() == self@.preview_filters(),
    {
        proof {
            reveal(model_of);
        }
        let mut filters: Vec<(String, String)> = Vec::new();
        let mut i: usize = 0;
        while i < self.column_filters.len()
            invariant
                i <= self.column_filters.len(),
                filters.len() == i,
                forall|j: int|
                    0 <= j < i ==> (#[trigger] filters[j]).deep_view()
                        == self.column_filters[j].deep_view(),
            decreases self.column_filters.len() - i,
        {
            proof {
                reveal(model_of);
            }
            filters.push((self.column_filters[i].0.clone(), self.column_filters[i].1.clone()));
            i += 1;
        }
        assert(filters.deep_view() =~= self.column_filters.deep_view());
        let name = match self.search_column {
            Some(column_index) => self.get_column_name_by_index(column_index),
            None => None,
        };
        if let Some(column_name) = name {
            put_entry(&mut filters, column_name, trim_text(self.search_text.as_str()));
        }
        filters
    }

    /// The query of a fetch for `purpose` from `table`.
    pub fn data_query(&self, table: &str, purpose: Refresh, known: &[String]) -> (sql: String)
        ensures
            sql@ == self@.data_query(table@, purpose, known.deep_view()),
    {
        proof {
            reveal(model_of);
        }
        let visible = self.get_visible_column_names();
        let filter = match purpose {
            Refresh::Initial => None,
            Refresh::Preview => {
                let filters = self.preview_filters();
                render_where(&filters)
            },
            _ => self.get_filter_sql_clause(known),
        };
        let order = self.get_sort_sql_clause(known);
        build_select(&visible, table, &filter, &order)
    }

    /// The statement that tells whether the engine takes the text in the
    /// filter input.
    pub fn filter_check(&self) -> (sql: Option<String>)
        ensures
            sql.deep_view() == self@.filter_check(),
    {
        proof {
            reveal(model_of);
        }
        if !self.is_searching {
            return None;
        }
        let text = trim_text(self.search_text.as_str());
        if text.as_str().unicode_len() == 0 {
            return None;
        }
        match (&self.search_column, &self.selected_table, &self.table_data) {
            (Some(column_index), Some(table), Some(data)) => {
                if *column_index < data.columns.len() {
                    assert(data.deep_view().columns[*column_index as int]
                        == data.columns[*column_index as int]@);
                    let mut sql = "SELECT COUNT(*) FROM ".to_owned();
                    sql.append(table.as_str());
                    sql.append(" WHERE ");
                    sql.append(data.columns[*column_index].as_str());
                    sql.append(" ");
                    sql.append(text.as_str());
                    Some(sql)
                } else {
                    None
                }
            },
            _ => None,
        }
    }
}

impl App {
    /// Starts a fetch of table data: asks for the column names of the
    /// selected table, or says that no table is selected.
    pub fn begin_fetch(&mut self, purpose: Refresh) -> (commands: Vec<Command>)
        ensures
            match (old(self)@.state.selected_database, old(self)@.state.selected_table) {
                (Some(_), Some(table)) => final(self)@ == old(self)@ && commands.deep_view()
                    == seq![CommandModel::LoadColumns { table, purpose }],
                _ => commands.deep_view() == Seq::<CommandModel>::empty() && final(self)@ == (
                AppModel { state: final(self)@.state, ..old(self)@ }) && notified(
                    old(self)@.state,
                    final(self)@.state,
                    NotificationType::Error,
                    "No table selected for data loading"@,
                ),
            },
            old(self)@.state.well_formed() ==> final(self)@.state.well_formed(),
    {
        proof {
            lemma_model_texts(&self.state);
        }
        let table = match (&self.state.selected_database, &self.state.selected_table) {
            (Some(_), Some(table)) => Some(table.clone()),
            _ => None,
        };
        match table {
            Some(table) => one_command(Command::LoadColumns { table, purpose }),
            None => {
                self.state.show_error("No table selected for data loading".to_owned());
                no_commands()
            },
        }
    }

    /// Takes the column names that the engine gave for the selected table
    /// and asks for the data; or says why there will be none.
    pub fn columns_loaded(&mut self, purpose: Refresh, outcome: Result<Vec<String>, LoadError>) -> (commands:
        Vec<Command>)
        ensures
            final(self)@ == (AppModel { state: final(self)@.state, ..old(self)@ }),
            match outcome {
                Ok(names) => match old(self)@.state.selected_table {
                    Some(table) => final(self)@.state == old(self)@.state.with_columns(
                        names.deep_view(),
                    ) && commands.deep_view() == seq![
                        CommandModel::RunQuery {
                            sql: final(self)@.state.data_query(table, purpose, names.deep_view()),
                            purpose,
                            row_cap: row_cap(purpose),
                        },
                    ],
                    None => notified(
                        old(self)@.state,
                        final(self)@.state,
                        NotificationType::Error,
                        "No table selected for data loading"@,
                    ) && commands.deep_view() == Seq::<CommandModel>::empty(),
                },
                Err(LoadError::NoConnection) => notified(
                    old(self)@.state,
                    final(self)@.state,
                    NotificationType::Error,
                    "No database connection available"@,
                ) && commands.deep_view() == Seq::<CommandModel>::empty(),
                Err(LoadError::Failed(why)) => notified(
                    old(self)@.state,
                    final(self)@.state,
                    NotificationType::Error,
                    "Failed to get column names: "@ + why@,
                ) && commands.deep_view() == Seq::<CommandModel>::empty(),
            },
            old(self)@.state.well_formed() ==> final(self)@.state.well_formed(),
    {
        proof {
            lemma_model_texts(&self.state);
        }
        match outcome {
            Ok(names) => {
                let table = match &self.state.selected_table {
                    Some(table) => Some(table.clone()),
                    None => None,
                };
                match table {
                    Some(table) => {
                        let known = crate::names::clone_names(&names);
                        self.state.initialize_column_order(names);
                        let known_slice = known.as_slice();
                        assert(known_slice.deep_view() =~= known.deep_view());
                        let sql = self.state.data_query(table.as_str(), purpose, known_slice);
                        let row_cap = purpose.row_cap();
                        one_command(Command::RunQuery { sql, purpose, row_cap })
                    },
                    None => {
                        self.state.show_error("No table selected for data loading".to_owned());
                        no_commands()
                    },
                }
            },
            Err(LoadError::NoConnection) => {
                self.state.show_error("No database connection available".to_owned());
                no_commands()
            },
            Err(LoadError::Failed(why)) => {
                let mut message = "Failed to get column names: ".to_owned();
                message.append(why.as_str());
                self.state.show_error(message);
                no_commands()
            },
        }
    }

    /// Takes the result of a query in. Data replaces what the table
    /// showed; a failure is notified and leaves data and selection as they
    /// were.
    pub fn query_finished(&mut self, purpose: Refresh, outcome: Result<QueryResult, String>)
        ensures
            final(self)@ == (AppModel { state: final(self)@.state, ..old(self)@ }),
            match outcome {
                Ok(data) => final(self)@.state == old(self)@.state.with_data(
                    purpose,
                    data.deep_view(),
                ),
                Err(why) => notified(
                    old(self)@.state,
                    final(self)@.state,
                    NotificationType::Error,
                    "Failed to load table data: "@ + why@,
                ),
            },
            old(self)@.state.well_formed() ==> final(self)@.state.well_formed(),
    {
        match outcome {
            Ok(data) => match purpose {
                Refresh::Initial => self.state.set_table_data(data),
                Refresh::Layout => self.state.update_table_data_preserve_position(data),
                _ => self.state.update_table_data_preserve_column(data),
            },
            Err(why) => {
                let mut message = "Failed to load table data: ".to_owned();
                message.append(why.as_str());
                self.state.show_error(message);
            },
        }
    }

    /// Starts the check of the text in the filter input. A blank text is
    /// valid without asking.
    pub fn begin_filter_check(&mut self) -> (commands: Vec<Command>)
        ensures
            final(self)@ == (AppModel {
                state: StateModel {
                    search_syntax_valid: if old(self)@.state.is_searching && trimmed(
                        old(self)@.state.search_text,
                    ).len() == 0 {
                        true
                    } else {
                        old(self)@.state.search_syntax_valid
                    },
                    ..old(self)@.state
                },
                ..old(self)@
            }),
            commands.deep_view() == match old(self)@.state.filter_check() {
                Some(sql) => seq![CommandModel::CheckFilter { sql }],
                None => Seq::<CommandModel>::empty(),
            },
            old(self)@.state.well_formed() ==> final(self)@.state.well_formed(),
    {
        proof {
            lemma_model_scalars(&self.state);
            lemma_model_texts(&self.state);
        }
        let blank = self.state.is_searching && trim_text(
            self.state.search_text.as_str(),
        ).as_str().unicode_len() == 0;
        let valid = blank || self.state.search_syntax_valid;
        self.state.set_search_syntax_valid(valid);
        match self.state.filter_check() {
            Some(sql) => one_command(Command::CheckFilter { sql }),
            None => no_commands(),
        }
    }

    /// Takes the answer of the engine to a filter check. Without a
    /// connection to ask, the text counts as valid.
    pub fn filter_checked(&mut self, accepted: Option<bool>)
        ensures
            final(self)@ == (AppModel {
                state: StateModel {
                    search_syntax_valid: match accepted {
                        Some(valid) => valid,
                        None => true,
                    },
                    ..old(self)@.state
                },
                ..old(self)@
            }),
            old(self)@.state.well_formed() ==> final(self)@.state.well_formed(),
    {
        self.state.set_search_syntax_valid(
            match accepted {
                Some(valid) => valid,
                None => true,
            },
        );
    }
}

} // verus!
