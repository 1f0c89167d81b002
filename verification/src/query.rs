//! What a query hands back, as plain text, and the text of the queries
//! that are sent.

use crate::strings::{
    contains_char, decimal, decimal_text, has_infix, join_texts, joined, lowercased, trimmed,
};
use vstd::prelude::*;
use vstd::string::*;

verus! {

#[derive(Debug, Clone)]
pub struct QueryResult {
    pub columns: Vec<String>,
    pub rows: Vec<Vec<String>>,
    pub row_count: usize,
    pub execution_time_ms: u64,
}

/// A query result as contracts see it.
pub ghost struct QueryResultModel {
    pub columns: Seq<Seq<char>>,
    pub rows: Seq<Seq<Seq<char>>>,
    pub row_count: usize,
    pub execution_time_ms: u64,
}

impl DeepView for QueryResult {
    type V = QueryResultModel;

    open spec fn deep_view(&self) -> QueryResultModel {
        QueryResultModel {
            columns: self.columns.deep_view(),
            rows: self.rows.deep_view(),
            row_count: self.row_count,
            execution_time_ms: self.execution_time_ms,
        }
    }
}

impl QueryResult {
    /// A result without columns or rows.
    pub fn new() -> (result: Self)
        ensures
            result.deep_view() == (QueryResultModel {
                columns: Seq::empty(),
                rows: Seq::empty(),
                row_count: 0,
                execution_time_ms: 0,
            }),
    {
        let result = Self {
            columns: Vec::new(),
            rows: Vec::new(),
            row_count: 0,
            execution_time_ms: 0,
        };
        assert(result.columns.deep_view() =~= Seq::empty());
        assert(result.rows.deep_view() =~= Seq::empty());
        result
    }
}

#[derive(Debug, Clone)]
pub struct ColumnInfo {
    pub name: String,
    pub data_type: String,
    pub is_nullable: bool,
    pub default_value: Option<String>,
}

/// The condition that a filter value puts on a column: a pattern match
/// where the value holds a percent sign, equality where it does not.
pub open spec fn filter_condition(column: Seq<char>, value: Seq<char>) -> Seq<char> {
    if value.contains('%') {
        column + " LIKE '"@ + value + "'"@
    } else {
        column + " = '"@ + value + "'"@
    }
}

/// The query that selects all columns of `table` under `filters`, with
/// at most `limit` rows where a limit is given.
pub open spec fn filter_query(
    table: Seq<char>,
    filters: Seq<(Seq<char>, Seq<char>)>,
    limit: Option<usize>,
) -> Seq<char> {
    "SELECT * FROM "@ + table + (if filters.len() > 0 {
        " WHERE "@ + joined(
            filters.map_values(|f: (Seq<char>, Seq<char>)| filter_condition(f.0, f.1)),
            " AND "@,
        )
    } else {
        Seq::empty()
    }) + (match limit {
        Some(n) => " LIMIT "@ + decimal(n as nat),
        None => Seq::empty(),
    })
}

/// Builds the query that selects all columns of a table under filters on
/// column values.
pub fn build_filter_query(
    table_name: &str,
    filters: &Vec<(String, String)>,
    limit: Option<usize>,
) -> (query: String)
    ensures
        query@ == filter_query(table_name@, filters.deep_view(), limit),
{
    let ghost condition = |f: (Seq<char>, Seq<char>)| filter_condition(f.0, f.1);
    let mut query = "SELECT * FROM ".to_owned();
    query.append(table_name);
    if filters.len() > 0 {
        let mut conditions: Vec<String> = Vec::new();
        let mut i: usize = 0;
        while i < filters.len()
            invariant
                i <= filters.len(),
                condition == |f: (Seq<char>, Seq<char>)| filter_condition(f.0, f.1),
                conditions.deep_view() == filters.deep_view().take(i as int).map_values(condition),
            decreases filters.len() - i,
        {
            let ghost done = conditions.deep_view();
            let mut text = filters[i].0.clone();
            if contains_char(filters[i].1.as_str(), '%') {
                text.append(" LIKE '");
            } else {
                text.append(" = '");
            }
            text.append(filters[i].1.as_str());
            text.append("'");
            conditions.push(text);
            proof {
                let next = filters.deep_view().take(i + 1).map_values(condition);
                assert(conditions.deep_view() =~= done.push(
                    filter_condition(filters.deep_view()[i as int].0, filters.deep_view()[i as int].1),
                ));
                assert(next =~= done.push(next.last()));
            }
            i += 1;
        }
        assert(filters.deep_view().take(i as int) =~= filters.deep_view());
        query.append(" WHERE ");
        query.append(join_texts(&conditions, " AND ").as_str());
    }
    if let Some(n) = limit {
        query.append(" LIMIT ");
        query.append(decimal_text(n).as_str());
    }
    assert(query@ =~= filter_query(table_name@, filters.deep_view(), limit));
    query
}


/// A query with a cap on its rows behind it, unless the word "limit"
/// stands in it already, in whatever case.
pub open spec fn limited(sql: Seq<char>, limit: usize) -> Seq<char> {
    if has_infix(lowercased(trimmed(sql)), "limit"@) {
        sql
    } else {
        sql + " LIMIT "@ + decimal(limit as nat)
    }
}

/// The query that shows the first rows of a table.
pub open spec fn preview_query(table: Seq<char>, limit: usize) -> Seq<char> {
    "SELECT * FROM "@ + table + " LIMIT "@ + decimal(limit as nat)
}

/// The names at the positions of `order` that `names` reaches, in the
/// order of `order`.
pub open spec fn picked(order: Seq<usize>, names: Seq<Seq<char>>) -> Seq<Seq<char>> {
    order.filter(|i: usize| i < names.len()).map_values(|i: usize| names[i as int])
}

/// The query that shows the first rows of a table with its columns in a
/// given order; with all columns where the order names none.
pub open spec fn ordered_preview_query(
    table: Seq<char>,
    order: Seq<usize>,
    names: Seq<Seq<char>>,
    limit: usize,
) -> Seq<char> {
    if picked(order, names).len() == 0 {
        preview_query(table, limit)
    } else {
        "SELECT "@ + joined(picked(order, names), ", "@) + " FROM "@ + table + " LIMIT "@
            + decimal(limit as nat)
    }
}

/// Caps the rows of a query that does not cap them itself.
pub fn limit_query(sql: &str, limit: usize) -> (query: String)
    ensures
        query@ == limited(sql@, limit),
{
    let lower = crate::strings::lowercase_text(crate::strings::trim_text(sql).as_str());
    let mut query = sql.to_owned();
    if !crate::strings::contains_text(lower.as_str(), "limit") {
        query.append(" LIMIT ");
        query.append(decimal_text(limit).as_str());
    }
    query
}

/// Writes the query that shows the first rows of a table.
pub fn table_preview_query(table_name: &str, limit: usize) -> (query: String)
    ensures
        query@ == preview_query(table_name@, limit),
{
    let mut query = "SELECT * FROM ".to_owned();
    query.append(table_name);
    query.append(" LIMIT ");
    query.append(decimal_text(limit).as_str());
    query
}

/// Writes the query that shows the first rows of a table with its columns
/// in a given order.
pub fn table_preview_query_with_column_order(
    table_name: &str,
    column_order: &[usize],
    column_names: &[String],
    limit: usize,
) -> (query: String)
    ensures
        query@ == ordered_preview_query(
            table_name@,
            column_order@,
            column_names.deep_view(),
            limit,
        ),
{
    let ghost names = column_names.deep_view();
    let ghost known = |i: usize| i < names.len();
    let ghost name_of = |i: usize| names[i as int];
    let mut ordered: Vec<String> = Vec::new();
    let mut k: usize = 0;
    proof {
        reveal(Seq::filter);
        assert(column_order@.take(0).filter(known) =~= Seq::<usize>::empty());
        assert(ordered.deep_view() =~= Seq::<Seq<char>>::empty());
    }
    while k < column_order.len()
        invariant
            k <= column_order.len(),
            names == column_names.deep_view(),
            known == |i: usize| i < names.len(),
            name_of == |i: usize| names[i as int],
            ordered.deep_view() == column_order@.take(k as int).filter(known).map_values(name_of),
        decreases column_order.len() - k,
    {
        let ghost done = column_order@.take(k as int);
        let ghost kept = ordered.deep_view();
        let at = column_order[k];
        proof {
            assert(column_order@.take(k + 1) =~= done.push(at));
            done.lemma_filter_push(at, known);
        }
        if at < column_names.len() {
            ordered.push(column_names[at].clone());
            proof {
                assert(names[at as int] == column_names[at as int]@);
                assert(ordered.deep_view() =~= kept.push(names[at as int]));
                assert(done.filter(known).push(at).map_values(name_of) =~= kept.push(
                    names[at as int],
                ));
            }
        }
        k += 1;
    }
    assert(column_order@.take(k as int) =~= column_order@);
    if ordered.len() == 0 {
        return table_preview_query(table_name, limit);
    }
    let mut query = "SELECT ".to_owned();
    query.append(join_texts(&ordered, ", ").as_str());
    query.append(" FROM ");
    query.append(table_name);
    query.append(" LIMIT ");
    query.append(decimal_text(limit).as_str());
    query
}

/// Writes the query that counts the rows of a table.
pub fn table_count_query(table_name: &str) -> (query: String)
    ensures
        query@ == "SELECT COUNT(*) FROM "@ + table_name@,
{
    let mut query = "SELECT COUNT(*) FROM ".to_owned();
    query.append(table_name);
    query
}

/// Writes the query that lists the columns of a table with type,
/// nullability and default, in the order of the table.
pub fn table_columns_query(table_name: &str) -> (query: String)
    ensures
        query@
            == "SELECT column_name, data_type, is_nullable, column_default \n             FROM information_schema.columns \n             WHERE table_name = '"@
            + table_name@ + "' \n             ORDER BY ordinal_position"@,
{
    let mut query =
        "SELECT column_name, data_type, is_nullable, column_default \n             FROM information_schema.columns \n             WHERE table_name = '".to_owned();
    query.append(table_name);
    query.append("' \n             ORDER BY ordinal_position");
    query
}

/// Writes the query that gives the column names of a table and no row.
pub fn column_names_query(table_name: &str) -> (query: String)
    ensures
        query@ == "SELECT * FROM "@ + table_name@ + " LIMIT 0"@,
{
    let mut query = "SELECT * FROM ".to_owned();
    query.append(table_name);
    query.append(" LIMIT 0");
    query
}

/// Writes the statement that describes the columns of a table.
pub fn describe_table_query(table_name: &str) -> (query: String)
    ensures
        query@ == "DESCRIBE "@ + table_name@,
{
    let mut query = "DESCRIBE ".to_owned();
    query.append(table_name);
    query
}

/// Writes the statement that sums a table up column by column.
pub fn summarize_table_query(table_name: &str) -> (query: String)
    ensures
        query@ == "SUMMARIZE "@ + table_name@,
{
    let mut query = "SUMMARIZE ".to_owned();
    query.append(table_name);
    query
}

/// Writes the statement that drops a table if it is there.
pub fn drop_table_query(table_name: &str) -> (query: String)
    ensures
        query@ == "DROP TABLE IF EXISTS "@ + table_name@,
{
    let mut query = "DROP TABLE IF EXISTS ".to_owned();
    query.append(table_name);
    query
}

} // verus!
