//! The inspect view: the list of the columns with their sort and
//! visibility, and the table of statistics.

use crate::focus::InspectSection;
use crate::layout::larger;
use crate::names::{position_of, Name};
use crate::query::{QueryResult, QueryResultModel};
use crate::sort::{chain_columns, chain_position, direction_keyword, SortDirection};
use crate::state::{lemma_model_scalars, model_of, ApplicationState, StateModel};
use crate::strings::{decimal, next_decimal_text};
use vstd::prelude::*;
use vstd::string::*;
use vstd::utf8::encode_utf8;

verus! {

/// The least width of a column of statistics.
pub const MIN_STATISTICS_WIDTH: usize = 8;

/// The greatest width of a column of statistics.
pub const MAX_STATISTICS_WIDTH: usize = 20;

/// One line of the column list.
#[derive(Debug, Clone, PartialEq, Eq)]
pub enum SchemaLine {
    /// A column: its name, type and nullability as the engine describes
    /// them, its rank and direction in the sort chain, and whether it is
    /// hidden, which dims the line.
    Column { cells: Vec<String>, hidden: bool },
    /// A line for which the display order has no column.
    Error,
}

/// A line of the column list as contracts see it.
pub ghost enum SchemaLineModel {
    Column { cells: Seq<Seq<char>>, hidden: bool },
    Error,
}

impl DeepView for SchemaLine {
    type V = SchemaLineModel;

    open spec fn deep_view(&self) -> SchemaLineModel {
        match self {
            SchemaLine::Column { cells, hidden } => SchemaLineModel::Column {
                cells: cells.deep_view(),
                hidden: *hidden,
            },
            SchemaLine::Error => SchemaLineModel::Error,
        }
    }
}

/// The number of bytes that a text takes.
pub open spec fn byte_len(text: Seq<char>) -> nat {
    encode_utf8(text).len()
}

/// The width of a column of statistics whose longest text takes `longest`
/// bytes.
pub open spec fn statistics_width(longest: nat) -> nat {
    if longest < MIN_STATISTICS_WIDTH {
        MIN_STATISTICS_WIDTH as nat
    } else if longest > MAX_STATISTICS_WIDTH {
        MAX_STATISTICS_WIDTH as nat
    } else {
        longest
    }
}

/// The greatest number of bytes that a cell of `column` takes in `rows`.
pub open spec fn longest_cell(rows: Seq<Seq<Seq<char>>>, column: int) -> nat
    decreases rows.len(),
{
    if rows.len() == 0 {
        0
    } else {
        larger(
            longest_cell(rows.drop_last(), column),
            if column < rows.last().len() {
                byte_len(rows.last()[column])
            } else {
                0
            },
        )
    }
}

/// The rows that the engine describes the columns with, in display order:
/// for each column of the display order that the schema knows, the row at
/// its place in the schema, as far as there is one.
pub open spec fn ordered_schema_rows(
    order: Seq<Name>,
    original: Seq<Name>,
    rows: Seq<Seq<Seq<char>>>,
) -> Seq<Seq<Seq<char>>>
    decreases order.len(),
{
    if order.len() == 0 {
        Seq::empty()
    } else {
        let front = ordered_schema_rows(order.drop_last(), original, rows);
        match original.index_of_first(order.last()) {
            Some(i) => if i < rows.len() {
                front.push(rows[i])
            } else {
                front
            },
            None => front,
        }
    }
}

/// The cell `i` of a row of the description, a question mark where the
/// row is too short.
pub open spec fn described(row: Seq<Seq<char>>, i: int) -> Seq<char> {
    if 0 <= i < row.len() {
        row[i]
    } else {
        "?"@
    }
}

impl StateModel {
    /// The title of the column list.
    pub open spec fn schema_title(self, table: Seq<char>) -> Seq<char> {
        if self.inspect_active_section == InspectSection::Schema {
            if self.is_modifying {
                "► Columns: "@ + table
                    + " (MODIFY MODE - j/k to move, J/K for extremes, o to hide/show, Enter to confirm, Esc to cancel)"@
            } else {
                "► Columns: "@ + table + " (Tab to switch, j/k to scroll, m to modify)"@
            }
        } else {
            "Columns: "@ + table
        }
    }

    /// The title of the statistics.
    pub open spec fn statistics_title(self, table: Seq<char>) -> Seq<char> {
        if self.inspect_active_section == InspectSection::Statistics {
            "► Statistics: "@ + table + " (Tab to switch, ↑↓ to scroll, Esc to exit)"@
        } else {
            "Statistics: "@ + table + " (Press Esc to exit inspect mode)"@
        }
    }

    /// The line of the column list for the row `row` of the description,
    /// which stands at `position` of the list.
    pub open spec fn schema_line(self, row: Seq<Seq<char>>, position: int) -> SchemaLineModel {
        let at = self.inspect_schema_scroll_y + position;
        if at < self.virtual_order().len() {
            let column = self.virtual_order()[at];
            let hidden = self.is_hidden(column);
            SchemaLineModel::Column {
                cells: seq![
                    described(row, 0),
                    described(row, 1),
                    described(row, 2),
                    match chain_columns(self.sort_columns).index_of_first(column) {
                        Some(rank) => decimal((rank + 1) as nat),
                        None => Seq::empty(),
                    },
                    match chain_columns(self.sort_columns).index_of_first(column) {
                        Some(rank) => direction_keyword(self.sort_columns[rank].direction),
                        None => Seq::empty(),
                    },
                    if hidden {
                        "YES"@
                    } else {
                        "NO"@
                    },
                ],
                hidden,
            }
        } else {
            SchemaLineModel::Error
        }
    }

    /// The lines of the column list from the scroll position on.
    pub open spec fn schema_lines(self, description: QueryResultModel) -> Seq<SchemaLineModel> {
        let rows = ordered_schema_rows(
            self.virtual_order(),
            self.original_column_names,
            description.rows,
        );
        if self.inspect_schema_scroll_y <= rows.len() {
            Seq::new(
                (rows.len() - self.inspect_schema_scroll_y) as nat,
                |k: int|
                    self.schema_line(
                        rows[self.inspect_schema_scroll_y + k],
                        self.inspect_schema_scroll_y + k,
                    ),
            )
        } else {
            Seq::empty()
        }
    }

    /// The line of the column list that is marked: the selected row,
    /// counted from the scroll position, while the list is active.
    pub open spec fn schema_mark(self) -> Option<usize> {
        if self.inspect_active_section == InspectSection::Schema {
            Some(
                if self.inspect_selected_row >= self.inspect_schema_scroll_y {
                    (self.inspect_selected_row - self.inspect_schema_scroll_y) as usize
                } else {
                    0
                },
            )
        } else {
            None
        }
    }

    /// The rows of the statistics from the scroll position on.
    pub open spec fn statistics_rows(self, statistics: QueryResultModel) -> Seq<Seq<Seq<char>>> {
        if self.inspect_stats_scroll_y <= statistics.rows.len() {
            statistics.rows.skip(self.inspect_stats_scroll_y as int)
        } else {
            Seq::empty()
        }
    }
}

/// The widths of the columns of the statistics: as wide as the longest
/// text of the column, header included, within the bounds.
pub open spec fn statistics_widths(statistics: QueryResultModel) -> Seq<usize> {
    Seq::new(
        statistics.columns.len(),
        |c: int|
            statistics_width(
                larger(byte_len(statistics.columns[c]), longest_cell(statistics.rows, c)),
            ) as usize,
    )
}

/// The rows that the engine describes the columns with, in display order.
pub fn order_schema_rows(order: &Vec<String>, original: &Vec<String>, rows: &Vec<Vec<String>>) -> (ordered:
    Vec<Vec<String>>)
    ensures
        ordered.deep_view() == ordered_schema_rows(
            order.deep_view(),
            original.deep_view(),
            rows.deep_view(),
        ),
{
    let mut ordered: Vec<Vec<String>> = Vec::new();
    let mut i: usize = 0;
    proof {
        assert(order.deep_view().take(0) =~= Seq::<Name>::empty());
        assert(ordered.deep_view() =~= Seq::<Seq<Seq<char>>>::empty());
    }
    while i < order.len()
        invariant
            i <= order.len(),
            ordered.deep_view() == ordered_schema_rows(
                order.deep_view().take(i as int),
                original.deep_view(),
                rows.deep_view(),
            ),
        decreases order.len() - i,
    {
        let ghost next = order.deep_view().take(i + 1);
        let ghost done = ordered.deep_view();
        proof {
            assert(next.drop_last() =~= order.deep_view().take(i as int));
            assert(next.last() == order[i as int]@);
        }
        if let Some(at) = position_of(original, order[i].as_str()) {
            if at < rows.len() {
                ordered.push(crate::names::clone_names(&rows[at]));
                assert(ordered.deep_view() =~= done.push(rows.deep_view()[at as int]));
            }
        }
        i += 1;
    }
    assert(order.deep_view().take(i as int) =~= order.deep_view());
    ordered
}

/// The cell `i` of a row of the description.
fn describe(row: &Vec<String>, i: usize) -> (cell: String)
    ensures
        cell@ == described(row.deep_view(), i as int),
{
    if i < row.len() {
        assert(row.deep_view()[i as int] == row[i as int]@);
        row[i].clone()
    } else {
        "?".to_owned()
    }
}

impl ApplicationState {
    /// The title of the column list.
    pub fn schema_title(&self, table: &str) -> (title: String)
        ensures
            title@ == self@.schema_title(table@),
    {
        proof {
            lemma_model_scalars(self);
        }
        let active = match self.inspect_active_section {
            InspectSection::Schema => true,
            InspectSection::Statistics => false,
        };
        if active {
            let mut title = "► Columns: ".to_owned();
            title.append(table);
            if self.is_modifying {
                title.append(
                    " (MODIFY MODE - j/k to move, J/K for extremes, o to hide/show, Enter to confirm, Esc to cancel)",
                );
            } else {
                title.append(" (Tab to switch, j/k to scroll, m to modify)");
            }
            title
        } else {
            let mut title = "Columns: ".to_owned();
            title.append(table);
            title
        }
    }

    /// The title of the statistics.
    pub fn statistics_title(&self, table: &str) -> (title: String)
        ensures
            title@ == self@.statistics_title(table@),
    {
        proof {
            lemma_model_scalars(self);
        }
        let active = match self.inspect_active_section {
            InspectSection::Schema => false,
            InspectSection::Statistics => true,
        };
        if active {
            let mut title = "► Statistics: ".to_owned();
            title.append(table);
            title.append(" (Tab to switch, ↑↓ to scroll, Esc to exit)");
            title
        } else {
            let mut title = "Statistics: ".to_owned();
            title.append(table);
            title.append(" (Press Esc to exit inspect mode)");
            title
        }
    }

    /// The line of the column list for a row of the description.
    fn schema_line(&self, row: &Vec<String>, position: usize) -> (line: SchemaLine)
        ensures
            line.deep_view() == self@.schema_line(row.deep_view(), position as int),
    {
        proof {
            reveal(model_of);
        }
        let order = self.virtual_order_ref();
        assert(order.deep_view().len() == order.len());
        let at = match self.inspect_schema_scroll_y.checked_add(position) {
            Some(at) => at,
            None => {
                return SchemaLine::Error;
            },
        };
        if at >= order.len() {
            return SchemaLine::Error;
        }
        assert(order.deep_view()[at as int] == order[at as int]@);
        let column = order[at].as_str();
        let hidden = self.is_column_hidden_by_name(column);
        let (rank, direction) = match chain_position(&self.sort_columns, column) {
            Some(rank) => (
                next_decimal_text(rank),
                match self.sort_columns[rank].direction {
                    SortDirection::Ascending => "ASC".to_owned(),
                    SortDirection::Descending => "DESC".to_owned(),
                },
            ),
            None => (String::new(), String::new()),
        };
        proof {
            reveal_strlit("ASC");
            reveal_strlit("DESC");
            assert("ASC"@ =~= direction_keyword(SortDirection::Ascending));
            assert("DESC"@ =~= direction_keyword(SortDirection::Descending));
        }
        let mut cells: Vec<String> = Vec::new();
        cells.push(describe(row, 0));
        cells.push(describe(row, 1));
        cells.push(describe(row, 2));
        cells.push(rank);
        cells.push(direction);
        cells.push(
            if hidden {
                "YES".to_owned()
            } else {
                "NO".to_owned()
            },
        );
        let line = SchemaLine::Column { cells, hidden };
        assert(line.deep_view()->Column_cells =~= self@.schema_line(
            row.deep_view(),
            position as int,
        )->Column_cells);
        line
    }

    /// The lines of the column list from the scroll position on, given
    /// the rows that the engine describes the columns with.
    pub fn schema_lines(&self, description: &QueryResult) -> (lines: Vec<SchemaLine>)
        ensures
            lines.deep_view() == self@.schema_lines(description.deep_view()),
    {
        proof {
            reveal(model_of);
        }
        let rows = order_schema_rows(
            self.virtual_order_ref(),
            &self.original_column_names,
            &description.rows,
        );
        let mut lines: Vec<SchemaLine> = Vec::new();
        let start = self.inspect_schema_scroll_y;
        if start > rows.len() {
            assert(lines.deep_view() =~= Seq::<SchemaLineModel>::empty());
            return lines;
        }
        let mut i: usize = start;
        while i < rows.len()
            invariant
                start <= i <= rows.len(),
                start == self@.inspect_schema_scroll_y,
                lines.len() == i - start,
                forall|k: int|
                    0 <= k < i - start ==> (#[trigger] lines[k]).deep_view() == self@.schema_line(
                        rows.deep_view()[start + k],
                        start + k,
                    ),
            decreases rows.len() - i,
        {
            assert(rows.deep_view()[i as int] == rows[i as int].deep_view());
            lines.push(self.schema_line(&rows[i], i));
            i += 1;
        }
        assert(lines.deep_view() =~= self@.schema_lines(description.deep_view()));
        lines
    }

    /// The line of the column list that is marked.
    pub fn schema_mark(&self) -> (mark: Option<usize>)
        ensures
            mark == self@.schema_mark(),
    {
        proof {
            lemma_model_scalars(self);
        }
        match self.inspect_active_section {
            InspectSection::Schema => Some(
                self.inspect_selected_row.saturating_sub(self.inspect_schema_scroll_y),
            ),
            InspectSection::Statistics => None,
        }
    }

    /// The offset from which the statistics are shown.
    pub fn statistics_offset(&self) -> (offset: usize)
        ensures
            offset == self@.inspect_stats_scroll_y,
    {
        proof {
            lemma_model_scalars(self);
        }
        self.inspect_stats_scroll_y
    }
}

/// The greatest number of bytes that a cell of `column` takes in `rows`.
pub fn longest_cell_of(rows: &Vec<Vec<String>>, column: usize) -> (longest: usize)
    ensures
        longest == longest_cell(rows.deep_view(), column as int),
{
    let mut longest: usize = 0;
    let mut r: usize = 0;
    assert(rows.deep_view().take(0) =~= Seq::<Seq<Seq<char>>>::empty());
    while r < rows.len()
        invariant
            r <= rows.len(),
            longest == longest_cell(rows.deep_view().take(r as int), column as int),
        decreases rows.len() - r,
    {
        let ghost next = rows.deep_view().take(r + 1);
        assert(next.drop_last() =~= rows.deep_view().take(r as int));
        assert(next.last() == rows[r as int].deep_view());
        if column < rows[r].len() {
            assert(rows[r as int].deep_view()[column as int] == rows[r as int][column as int]@);
            let cell = rows[r][column].as_str();
            let bytes = cell.as_bytes().len();
            assert(bytes == byte_len(cell@)) by {
                assert(cell.spec_bytes() == encode_utf8(cell@));
            }
            if bytes > longest {
                longest = bytes;
            }
        }
        r += 1;
    }
    assert(rows.deep_view().take(r as int) =~= rows.deep_view());
    longest
}

/// The widths of the columns of the statistics.
pub fn statistics_column_widths(statistics: &QueryResult) -> (widths: Vec<usize>)
    ensures
        widths@ == statistics_widths(statistics.deep_view()),
{
    let mut widths: Vec<usize> = Vec::new();
    let mut c: usize = 0;
    while c < statistics.columns.len()
        invariant
            c <= statistics.columns.len(),
            widths@.len() == c,
            forall|k: int|
                0 <= k < c ==> widths@[k] == statistics_width(
                    larger(
                        byte_len(statistics.deep_view().columns[k]),
                        longest_cell(statistics.deep_view().rows, k),
                    ),
                ),
        decreases statistics.columns.len() - c,
    {
        assert(statistics.deep_view().columns[c as int] == statistics.columns[c as int]@);
        let name = statistics.columns[c].as_str();
        let header = name.as_bytes().len();
        assert(header == byte_len(name@)) by {
            assert(name.spec_bytes() == encode_utf8(name@));
        }
        let cells = longest_cell_of(&statistics.rows, c);
        let longest = if header >= cells {
            header
        } else {
            cells
        };
        widths.push(
            if longest < MIN_STATISTICS_WIDTH {
                MIN_STATISTICS_WIDTH
            } else if longest > MAX_STATISTICS_WIDTH {
                MAX_STATISTICS_WIDTH
            } else {
                longest
            },
        );
        c += 1;
    }
    assert(widths@ =~= statistics_widths(statistics.deep_view()));
    widths
}

} // verus!
