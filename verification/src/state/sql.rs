//! The query that shows the table as the state describes it.

use crate::names::Name;
use crate::sort::order_by_clause;
use crate::state::filters::where_clause;
use crate::state::{ApplicationState, StateModel};
use crate::strings::{join_texts, joined};
use crate::state::model_of;
use vstd::prelude::*;
use vstd::string::*;

verus! {

/// A clause behind a space, or nothing where there is no clause.
pub open spec fn clause_suffix(clause: Option<Seq<char>>) -> Seq<char> {
    match clause {
        Some(text) => " "@ + text,
        None => Seq::empty(),
    }
}

/// A SELECT statement: the columns separated by a comma and a space, the
/// table, then the WHERE clause and the ORDER BY clause where there are
/// any.
pub open spec fn select_statement(
    columns: Seq<Name>,
    table: Seq<char>,
    filter: Option<Seq<char>>,
    order: Option<Seq<char>>,
) -> Seq<char> {
    "SELECT "@ + joined(columns, ", "@) + " FROM "@ + table + clause_suffix(filter) + clause_suffix(
        order,
    )
}

impl StateModel {
    /// The statement that selects from `table_name` what the state shows:
    /// the visible columns in display order, filtered and sorted as the
    /// state says. There is none without a selected table or without a
    /// visible column.
    pub open spec fn view_sql(self, table_name: Seq<char>) -> Option<Seq<char>> {
        if self.selected_table is None || self.visible_column_names().len() == 0 {
            None
        } else {
            Some(
                select_statement(
                    self.visible_column_names(),
                    table_name,
                    where_clause(self.column_filters),
                    order_by_clause(self.sort_columns, self.original_column_names),
                ),
            )
        }
    }
}

/// Writes a SELECT statement.
pub fn build_select(
    columns: &Vec<String>,
    table: &str,
    filter: &Option<String>,
    order: &Option<String>,
) -> (sql: String)
    ensures
        sql@ == select_statement(columns.deep_view(), table@, filter.deep_view(), order.deep_view()),
{
    let mut sql = "SELECT ".to_owned();
    let list = join_texts(columns, ", ");
    sql.append(list.as_str());
    sql.append(" FROM ");
    sql.append(table);
    if let Some(clause) = filter {
        sql.append(" ");
        sql.append(clause.as_str());
    }
    assert(sql@ =~= "SELECT "@ + joined(columns.deep_view(), ", "@) + " FROM "@ + table@
        + clause_suffix(filter.deep_view()));
    if let Some(clause) = order {
        sql.append(" ");
        sql.append(clause.as_str());
    }
    assert(sql@ =~= select_statement(
        columns.deep_view(),
        table@,
        filter.deep_view(),
        order.deep_view(),
    ));
    sql
}

impl ApplicationState {
    /// The statement that selects from `table_name` what the state shows.
    pub fn generate_view_sql(&self, table_name: &str) -> (sql: Option<String>)
        ensures
            sql.deep_view() == self@.view_sql(table_name@),
    {
        proof {
            reveal(model_of);
        }
        if self.selected_table.is_none() {
            return None;
        }
        let visible_column_names = self.get_visible_column_names();
        if visible_column_names.len() == 0 {
            return None;
        }
        let known = self.original_column_names.as_slice();
        assert(known.deep_view() =~= self.original_column_names.deep_view());
        let filter = self.get_filter_sql_clause(known);
        let order = self.get_sort_sql_clause(known);
        Some(build_select(&visible_column_names, table_name, &filter, &order))
    }
}

} // verus!
