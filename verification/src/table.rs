//! The table as it is drawn: header texts with their sort and filter
//! marks, column widths, and the rows that the area has room for.

use crate::layout::{
    cell_at, column_width, column_width_for, row_height, row_heights, rows_fitting,
    rows_that_fit, sampled_rows, visible_columns, visible_columns_of, widest_cell,
    widest_cell_in, width_at, wrap_row, MIN_COLUMN_WIDTH, SAMPLED_ROWS,
};
use crate::text::{truncate_text, truncated, wrap_text, wrapped};
use crate::names::{keys, Name};
use crate::query::{QueryResult, QueryResultModel};
use crate::sort::{chain_columns, chain_position, SortColumnSpec, SortDirection, SortKey};
use crate::state::{ApplicationState, StateModel};
use crate::strings::{decimal, decimal_text};
use crate::state::model_of;
use vstd::prelude::*;
use vstd::string::*;

verus! {

/// Lines of the table area that hold no data: the border above and below
/// and the header.
pub const TABLE_CHROME_HEIGHT: u16 = 3;

/// Columns of the table area that hold no data: the border on the left and
/// on the right.
pub const TABLE_CHROME_WIDTH: u16 = 2;

/// The width that the table area is taken to have where only its height
/// is at hand.
pub const ASSUMED_TABLE_WIDTH: usize = 100;

/// The arrow that marks a sorted column.
pub open spec fn sort_mark(direction: SortDirection) -> Seq<char> {
    match direction {
        SortDirection::Ascending => "↑"@,
        SortDirection::Descending => "↓"@,
    }
}

/// The header of `column`: its name; behind it, where the chain sorts by
/// it, the arrow of its direction and, in a chain of several columns, its
/// rank; and at the end a star where the column is filtered.
pub open spec fn header_text(column: Name, chain: Seq<SortKey>, filtered: bool) -> Seq<char> {
    let sorted = match chain_columns(chain).index_of_first(column) {
        Some(i) => if chain.len() > 1 {
            column + " "@ + sort_mark(chain[i].direction) + "^"@ + decimal((i + 1) as nat)
        } else {
            column + " "@ + sort_mark(chain[i].direction)
        },
        None => column,
    };
    if filtered {
        sorted + " *"@
    } else {
        sorted
    }
}

/// `height` less `chrome`, down to zero.
pub open spec fn inner_size(size: u16, chrome: u16) -> nat {
    if size >= chrome {
        (size - chrome) as nat
    } else {
        0
    }
}

/// The end of the window of rows that begins at `start` and is `height`
/// rows high, within `total` rows.
pub open spec fn window_end(start: nat, height: nat, total: nat) -> nat {
    if start + height <= total {
        start + height
    } else {
        total
    }
}

impl StateModel {
    /// The header of the column `column` as the state marks it.
    pub open spec fn final_header_text(self, column: Name) -> Seq<char> {
        header_text(column, self.sort_columns, keys(self.column_filters).contains(column))
    }

    /// The width of the data column `c`. Where `sample` is set the cells
    /// count: for an expanded column those in the window from `start` to
    /// `end`, for any other those of the first rows. Where it is not, the
    /// header alone counts.
    pub open spec fn planned_width(
        self,
        data: QueryResultModel,
        c: int,
        start: int,
        end: int,
        sample: bool,
    ) -> nat {
        let expanded = self.expanded_columns.contains(c as usize);
        column_width_for(
            self.final_header_text(data.columns[c]).len(),
            if sample {
                widest_cell_in(sampled_rows(data.rows, expanded, start, end), c)
            } else {
                0
            },
            expanded,
        )
    }

    /// The widths of all data columns.
    pub open spec fn planned_widths(
        self,
        data: QueryResultModel,
        start: int,
        end: int,
        sample: bool,
    ) -> Seq<usize> {
        Seq::new(
            data.columns.len(),
            |c: int| self.planned_width(data, c, start, end, sample) as usize,
        )
    }

    /// The number of data rows on display from the scroll position on in
    /// an area that is `width` wide and `height` high inside, with column
    /// widths settled by the headers alone.
    pub open spec fn visible_data_rows(self, data: QueryResultModel, width: nat, height: nat) -> nat {
        let widths = self.planned_widths(data, 0, 0, false);
        let visible = visible_columns_of(widths, width as int, self.scroll_x as int);
        rows_fitting(
            row_heights(data.rows, self.scroll_y as int, widths, visible, self.expanded_columns),
            height as int,
        )
    }
}

/// `size` less `chrome`, down to zero.
pub fn inner(size: u16, chrome: u16) -> (rest: usize)
    ensures
        rest == inner_size(size, chrome),
{
    if size >= chrome {
        (size - chrome) as usize
    } else {
        0
    }
}

/// The end of a window of rows.
pub fn end_of_window(start: usize, height: usize, total: usize) -> (end: usize)
    ensures
        end == window_end(start as nat, height as nat, total as nat),
{
    if start <= total && height <= total - start {
        start + height
    } else {
        total
    }
}

/// Writes the header of a column.
pub fn write_header(column_name: &str, chain: &Vec<SortColumnSpec>, filtered: bool) -> (text:
    String)
    ensures
        text@ == header_text(column_name@, chain.deep_view(), filtered),
{
    let mut text = column_name.to_owned();
    if let Some(position) = chain_position(chain, column_name) {
        text.append(" ");
        match chain[position].direction {
            SortDirection::Ascending => text.append("↑"),
            SortDirection::Descending => text.append("↓"),
        }
        if chain.len() > 1 {
            text.append("^");
            let rank = decimal_text(position + 1);
            text.append(rank.as_str());
        }
    }
    if filtered {
        text.append(" *");
    }
    assert(text@ =~= header_text(column_name@, chain.deep_view(), filtered));
    text
}

impl ApplicationState {
    /// The header of `column_name` with its sort and filter marks.
    pub fn get_final_header_text(&self, column_name: &str) -> (text: String)
        ensures
            text@ == self@.final_header_text(column_name@),
    {
        proof {
            reveal(model_of);
        }
        write_header(column_name, &self.sort_columns, self.is_column_filtered(column_name))
    }

    /// The widths of the columns of `data`.
    pub fn column_widths(&self, data: &QueryResult, start: usize, end: usize, sample: bool) -> (widths:
        Vec<usize>)
        ensures
            widths@ == self@.planned_widths(data.deep_view(), start as int, end as int, sample),
    {
        proof {
            reveal(model_of);
        }
        let ghost model = data.deep_view();
        let mut widths: Vec<usize> = Vec::new();
        let mut c: usize = 0;
        while c < data.columns.len()
            invariant
                c <= data.columns.len(),
                model == data.deep_view(),
                widths@.len() == c,
                forall|k: int|
                    0 <= k < c ==> widths@[k] as nat == #[trigger] self@.planned_width(
                        model,
                        k,
                        start as int,
                        end as int,
                        sample,
                    ),
            decreases data.columns.len() - c,
        {
            proof {
                reveal(model_of);
            }
            let header = self.get_final_header_text(data.columns[c].as_str());
            let header_width = header.as_str().unicode_len();
            let expanded = self.is_column_expanded(c);
            assert(model.columns[c as int] == data.columns[c as int]@);
            let widest = if !sample {
                0
            } else if expanded {
                widest_cell(&data.rows, c, start, end)
            } else if data.rows.len() <= SAMPLED_ROWS {
                assert(model.rows.subrange(0, model.rows.len() as int) =~= model.rows);
                widest_cell(&data.rows, c, 0, data.rows.len())
            } else {
                widest_cell(&data.rows, c, 0, SAMPLED_ROWS)
            };
            widths.push(column_width(header_width, widest, expanded));
            c += 1;
        }
        assert(widths@ =~= self@.planned_widths(model, start as int, end as int, sample));
        widths
    }

    /// How many data rows have room in a table area that is `area_width`
    /// wide and `area_height` high, wrapped cells counted in.
    pub fn calculate_visible_data_rows(
        &self,
        area_width: u16,
        area_height: u16,
        data: &QueryResult,
    ) -> (count: usize)
        ensures
            count == self@.visible_data_rows(
                data.deep_view(),
                inner_size(area_width, TABLE_CHROME_WIDTH),
                inner_size(area_height, TABLE_CHROME_HEIGHT),
            ),
            count >= 1,
    {
        proof {
            reveal(model_of);
        }
        let available_height = inner(area_height, TABLE_CHROME_HEIGHT);
        let available_width = inner(area_width, TABLE_CHROME_WIDTH);
        let widths = self.column_widths(data, 0, 0, false);
        let visible = visible_columns(&widths, available_width, self.scroll_x);
        rows_that_fit(
            &data.rows,
            self.scroll_y,
            available_height,
            &widths,
            &visible,
            &self.expanded_columns,
        )
    }

    /// How many data rows have room in a table area that is `area_height`
    /// high, with the width of the area taken as a round figure.
    pub fn calculate_visible_data_rows_from_height(&self, area_height: u16, data: &QueryResult) -> (count:
        usize)
        ensures
            count == self@.visible_data_rows(
                data.deep_view(),
                ASSUMED_TABLE_WIDTH as nat,
                inner_size(area_height, TABLE_CHROME_HEIGHT),
            ),
            count >= 1,
    {
        proof {
            reveal(model_of);
        }
        let available_height = inner(area_height, TABLE_CHROME_HEIGHT);
        let widths = self.column_widths(data, 0, 0, false);
        let visible = visible_columns(&widths, ASSUMED_TABLE_WIDTH, self.scroll_x);
        rows_that_fit(
            &data.rows,
            self.scroll_y,
            available_height,
            &widths,
            &visible,
            &self.expanded_columns,
        )
    }
}


/// How a cell stands out.
#[derive(Debug, Clone, Copy, PartialEq, Eq, Structural)]
pub enum CellEmphasis {
    /// The cell where the selected row and the selected column meet.
    Current,
    /// Another cell of the selected row.
    SelectedRow,
    /// Another cell of the selected column.
    SelectedColumn,
    Plain,
}

/// One cell of one line of the table as it is drawn.
#[derive(Debug, Clone)]
pub struct PlannedCell {
    pub text: String,
    pub emphasis: CellEmphasis,
}

/// A planned cell as contracts see it.
pub ghost struct PlannedCellModel {
    pub text: Seq<char>,
    pub emphasis: CellEmphasis,
}

impl DeepView for PlannedCell {
    type V = PlannedCellModel;

    open spec fn deep_view(&self) -> PlannedCellModel {
        PlannedCellModel { text: self.text@, emphasis: self.emphasis }
    }
}

/// The table as it is drawn in an area.
#[derive(Debug, Clone)]
pub struct TablePlan {
    /// The width of every column of the data.
    pub column_widths: Vec<usize>,
    /// The columns of the data that are on display.
    pub visible_columns: Vec<usize>,
    /// The width given to each column on display.
    pub visible_widths: Vec<usize>,
    /// The header, one cell for each column on display.
    pub header: Vec<PlannedCell>,
    /// The lines below the header, each with one cell for each column on
    /// display. A row with wrapped cells takes several lines.
    pub lines: Vec<Vec<PlannedCell>>,
}

/// A table plan as contracts see it.
pub ghost struct TablePlanModel {
    pub column_widths: Seq<usize>,
    pub visible_columns: Seq<usize>,
    pub visible_widths: Seq<usize>,
    pub header: Seq<PlannedCellModel>,
    pub lines: Seq<Seq<PlannedCellModel>>,
}

impl DeepView for TablePlan {
    type V = TablePlanModel;

    open spec fn deep_view(&self) -> TablePlanModel {
        TablePlanModel {
            column_widths: self.column_widths@,
            visible_columns: self.visible_columns@,
            visible_widths: self.visible_widths@,
            header: self.header.deep_view(),
            lines: self.lines.deep_view(),
        }
    }
}

/// How a data cell stands out.
pub open spec fn emphasis_for(in_selected_row: bool, in_selected_column: bool) -> CellEmphasis {
    if in_selected_row && in_selected_column {
        CellEmphasis::Current
    } else if in_selected_row {
        CellEmphasis::SelectedRow
    } else if in_selected_column {
        CellEmphasis::SelectedColumn
    } else {
        CellEmphasis::Plain
    }
}

/// The lines of text that a cell shows: its wrapped text where the column
/// is expanded, its truncated text on one line where it is not.
pub open spec fn cell_display(cell: Seq<char>, width: nat, expanded: bool) -> Seq<Seq<char>> {
    if expanded {
        wrapped(cell, width)
    } else {
        seq![truncated(cell, width)]
    }
}

/// The line `i` of `lines`, empty where there are fewer lines.
pub open spec fn line_at(lines: Seq<Seq<char>>, i: int) -> Seq<char> {
    if 0 <= i < lines.len() {
        lines[i]
    } else {
        Seq::empty()
    }
}

/// The width given to a column on display: its own where that fits into
/// the area, the least width for a column that is shown although it does
/// not fit.
pub open spec fn width_on_display(widths: Seq<usize>, column: usize, available: nat) -> usize {
    if width_at(widths, column as int) <= available {
        width_at(widths, column as int) as usize
    } else {
        MIN_COLUMN_WIDTH
    }
}

/// What the plan of a table depends on besides the data.
pub ghost struct TableFrame {
    pub widths: Seq<usize>,
    pub visible: Seq<usize>,
    pub expanded: Set<usize>,
    pub selected_row: usize,
    pub selected_column: Option<int>,
}

impl TableFrame {
    /// The cell of column `visible[k]` on line `line` of the row `row`,
    /// which is the row `r` of the data.
    pub open spec fn cell(self, row: Seq<Seq<char>>, r: int, line: int, k: int) -> PlannedCellModel {
        let column = self.visible[k];
        PlannedCellModel {
            text: line_at(
                cell_display(
                    cell_at(row, column as int),
                    width_at(self.widths, column as int),
                    self.expanded.contains(column),
                ),
                line,
            ),
            emphasis: emphasis_for(
                r == self.selected_row,
                self.selected_column == Some(column as int),
            ),
        }
    }

    /// One line of a row.
    pub open spec fn line(self, row: Seq<Seq<char>>, r: int, line: int) -> Seq<PlannedCellModel> {
        Seq::new(self.visible.len(), |k: int| self.cell(row, r, line, k))
    }

    /// The lines of a row.
    pub open spec fn row_lines(self, row: Seq<Seq<char>>, r: int) -> Seq<Seq<PlannedCellModel>> {
        Seq::new(
            row_height(row, self.widths, self.visible, self.expanded),
            |line: int| self.line(row, r, line),
        )
    }

    /// The lines of the rows from `start` up to `end`.
    pub open spec fn lines(self, rows: Seq<Seq<Seq<char>>>, start: int, end: int) -> Seq<
        Seq<PlannedCellModel>,
    >
        decreases end - start,
    {
        if end <= start || end > rows.len() || start < 0 {
            Seq::empty()
        } else {
            self.lines(rows, start, end - 1) + self.row_lines(rows[end - 1], end - 1)
        }
    }
}

impl StateModel {
    /// The header cell of the data column `column`.
    pub open spec fn header_cell(self, data: QueryResultModel, widths: Seq<usize>, column: usize) -> PlannedCellModel {
        let text = self.final_header_text(data.columns[column as int]);
        PlannedCellModel {
            text: if self.expanded_columns.contains(column) {
                text
            } else {
                truncated(text, width_at(widths, column as int))
            },
            emphasis: if self.visible_index() == Some(column as int) {
                CellEmphasis::SelectedColumn
            } else {
                CellEmphasis::Plain
            },
        }
    }

    /// The table as it is drawn in an area that is `area_width` wide and
    /// `area_height` high.
    pub open spec fn table_plan(self, data: QueryResultModel, area_width: u16, area_height: u16) -> TablePlanModel {
        let start = self.scroll_y as nat;
        let end = window_end(
            start,
            inner_size(area_height, TABLE_CHROME_HEIGHT),
            data.rows.len(),
        );
        let available = inner_size(area_width, TABLE_CHROME_WIDTH);
        let widths = self.planned_widths(data, start as int, end as int, true);
        let visible = visible_columns_of(widths, available as int, self.scroll_x as int);
        let frame = TableFrame {
            widths,
            visible,
            expanded: self.expanded_columns,
            selected_row: self.selected_row,
            selected_column: self.visible_index(),
        };
        TablePlanModel {
            column_widths: widths,
            visible_columns: visible,
            visible_widths: Seq::new(
                visible.len(),
                |k: int| width_on_display(widths, visible[k], available),
            ),
            header: Seq::new(visible.len(), |k: int| self.header_cell(data, widths, visible[k])),
            lines: frame.lines(data.rows, start as int, end as int),
        }
    }
}

/// How a data cell stands out.
fn emphasis_of(in_selected_row: bool, in_selected_column: bool) -> (emphasis: CellEmphasis)
    ensures
        emphasis == emphasis_for(in_selected_row, in_selected_column),
{
    if in_selected_row && in_selected_column {
        CellEmphasis::Current
    } else if in_selected_row {
        CellEmphasis::SelectedRow
    } else if in_selected_column {
        CellEmphasis::SelectedColumn
    } else {
        CellEmphasis::Plain
    }
}

/// Whether `selected` is the position `column`.
fn is_position(selected: Option<usize>, column: usize) -> (same: bool)
    ensures
        same == (selected == Some(column)),
{
    match selected {
        Some(i) => i == column,
        None => false,
    }
}

/// The lines of text that a cell shows.
fn display_cell(row: &Vec<String>, column: usize, widths: &Vec<usize>, expanded: bool) -> (lines:
    Vec<String>)
    ensures
        lines.deep_view() == cell_display(
            cell_at(row.deep_view(), column as int),
            width_at(widths@, column as int),
            expanded,
        ),
{
    let width = if column < widths.len() {
        widths[column]
    } else {
        MIN_COLUMN_WIDTH
    };
    proof {
        reveal_strlit("");
        assert(""@ =~= Seq::<char>::empty());
        if column < row.len() {
            assert(row.deep_view()[column as int] == row[column as int]@);
        }
    }
    let cell: &str = if column < row.len() {
        row[column].as_str()
    } else {
        ""
    };
    if expanded {
        wrap_text(cell, width)
    } else {
        let mut lines: Vec<String> = Vec::new();
        lines.push(truncate_text(cell, width));
        assert(lines.deep_view() =~= seq![truncated(cell@, width as nat)]);
        lines
    }
}

/// The cells of all columns on display for one row, each as its lines of
/// text.
fn display_row(
    row: &Vec<String>,
    widths: &Vec<usize>,
    visible: &Vec<usize>,
    expanded: &Vec<usize>,
) -> (cells: Vec<Vec<String>>)
    ensures
        cells.len() == visible.len(),
        forall|k: int|
            0 <= k < visible.len() ==> (#[trigger] cells[k]).deep_view() == cell_display(
                cell_at(row.deep_view(), visible@[k] as int),
                width_at(widths@, visible@[k] as int),
                expanded@.to_set().contains(visible@[k]),
            ),
{
    let mut cells: Vec<Vec<String>> = Vec::new();
    let mut k: usize = 0;
    while k < visible.len()
        invariant
            k <= visible.len(),
            cells.len() == k,
            forall|j: int|
                0 <= j < k ==> (#[trigger] cells[j]).deep_view() == cell_display(
                    cell_at(row.deep_view(), visible@[j] as int),
                    width_at(widths@, visible@[j] as int),
                    expanded@.to_set().contains(visible@[j]),
                ),
        decreases visible.len() - k,
    {
        let column = visible[k];
        let is_expanded = crate::indices::contains_index(expanded, column);
        cells.push(display_cell(row, column, widths, is_expanded));
        k += 1;
    }
    cells
}

impl ApplicationState {
    /// Plans the table for an area that is `area_width` wide and
    /// `area_height` high: the widths of the columns, the columns and rows
    /// that are on display, and every cell with its text and emphasis.
    pub fn plan_table(&self, data: &QueryResult, area_width: u16, area_height: u16) -> (plan:
        TablePlan)
        ensures
            plan.deep_view() == self@.table_plan(data.deep_view(), area_width, area_height),
    {
        proof {
            reveal(model_of);
        }
        let ghost model = data.deep_view();
        let available_height = inner(area_height, TABLE_CHROME_HEIGHT);
        let available_width = inner(area_width, TABLE_CHROME_WIDTH);
        let start = self.scroll_y;
        let end = end_of_window(start, available_height, data.rows.len());
        let widths = self.column_widths(data, start, end, true);
        let visible = visible_columns(&widths, available_width, self.scroll_x);
        let selected = self.get_selected_visible_index();
        let ghost frame = TableFrame {
            widths: widths@,
            visible: visible@,
            expanded: self@.expanded_columns,
            selected_row: self.selected_row,
            selected_column: self@.visible_index(),
        };
        let mut visible_widths: Vec<usize> = Vec::new();
        let mut header: Vec<PlannedCell> = Vec::new();
        let mut k: usize = 0;
        while k < visible.len()
            invariant
                k <= visible.len(),
                model == data.deep_view(),
                widths@.len() == data.columns.len(),
                forall|j: int| 0 <= j < visible@.len() ==> visible@[j] < widths.len(),
                visible_widths@.len() == k,
                header@.len() == k,
                match selected {
                    Some(i) => self@.visible_index() == Some(i as int),
                    None => self@.visible_index() is None,
                },
                forall|j: int|
                    0 <= j < k ==> visible_widths@[j] == width_on_display(
                        widths@,
                        visible@[j],
                        available_width as nat,
                    ),
                forall|j: int|
                    0 <= j < k ==> (#[trigger] header@[j]).deep_view() == self@.header_cell(
                        model,
                        widths@,
                        visible@[j],
                    ),
            decreases visible.len() - k,
        {
            proof {
                reveal(model_of);
            }
            let column = visible[k];
            let width = widths[column];
            visible_widths.push(
                if width <= available_width {
                    width
                } else {
                    MIN_COLUMN_WIDTH
                },
            );
            assert(model.columns[column as int] == data.columns[column as int]@);
            let full = self.get_final_header_text(data.columns[column].as_str());
            let text = if self.is_column_expanded(column) {
                full
            } else {
                truncate_text(full.as_str(), width)
            };
            let emphasis = if is_position(selected, column) {
                CellEmphasis::SelectedColumn
            } else {
                CellEmphasis::Plain
            };
            header.push(PlannedCell { text, emphasis });
            k += 1;
        }
        let mut lines: Vec<Vec<PlannedCell>> = Vec::new();
        let mut r: usize = start;
        proof {
            assert(lines.deep_view() =~= frame.lines(model.rows, start as int, start as int));
        }
        while r < end
            invariant
                start <= r,
                start <= end ==> r <= end,
                end <= data.rows.len(),
                model == data.deep_view(),
                frame.widths == widths@,
                frame.visible == visible@,
                frame.expanded == self.expanded_columns@.to_set(),
                frame.selected_row == self.selected_row,
                frame.selected_column == self@.visible_index(),
                match selected {
                    Some(i) => self@.visible_index() == Some(i as int),
                    None => self@.visible_index() is None,
                },
                lines.deep_view() == frame.lines(model.rows, start as int, r as int),
            decreases end - r,
        {
            proof {
                reveal(model_of);
            }
            let row = &data.rows[r];
            let ghost row_model = model.rows[r as int];
            assert(row_model == row.deep_view());
            let height = wrap_row(row, &widths, &visible, &self.expanded_columns);
            let cells = display_row(row, &widths, &visible, &self.expanded_columns);
            let in_selected_row = r == self.selected_row;
            let ghost before = lines.deep_view();
            let mut line: usize = 0;
            while line < height
                invariant
                    line <= height,
                    height == row_height(row_model, frame.widths, frame.visible, frame.expanded),
                    row_model == row.deep_view(),
                    in_selected_row == (r == self.selected_row),
                    frame.widths == widths@,
                    frame.visible == visible@,
                    frame.expanded == self.expanded_columns@.to_set(),
                    frame.selected_row == self.selected_row,
                    frame.selected_column == self@.visible_index(),
                    match selected {
                        Some(i) => self@.visible_index() == Some(i as int),
                        None => self@.visible_index() is None,
                    },
                    cells.len() == visible.len(),
                    forall|j: int|
                        0 <= j < visible.len() ==> (#[trigger] cells[j]).deep_view()
                            == cell_display(
                            cell_at(row.deep_view(), visible@[j] as int),
                            width_at(widths@, visible@[j] as int),
                            self.expanded_columns@.to_set().contains(visible@[j]),
                        ),
                    lines.deep_view() == before + Seq::new(
                        line as nat,
                        |l: int| frame.line(row_model, r as int, l),
                    ),
                decreases height - line,
            {
                proof {
                    reveal(model_of);
                }
                let mut planned: Vec<PlannedCell> = Vec::new();
                let mut k: usize = 0;
                while k < visible.len()
                    invariant
                        k <= visible.len(),
                        row_model == row.deep_view(),
                        in_selected_row == (r == self.selected_row),
                        frame.widths == widths@,
                        frame.visible == visible@,
                        frame.expanded == self.expanded_columns@.to_set(),
                        frame.selected_row == self.selected_row,
                        frame.selected_column == self@.visible_index(),
                        match selected {
                            Some(i) => self@.visible_index() == Some(i as int),
                            None => self@.visible_index() is None,
                        },
                        cells.len() == visible.len(),
                        forall|j: int|
                            0 <= j < visible.len() ==> (#[trigger] cells[j]).deep_view()
                                == cell_display(
                                cell_at(row.deep_view(), visible@[j] as int),
                                width_at(widths@, visible@[j] as int),
                                self.expanded_columns@.to_set().contains(visible@[j]),
                            ),
                        planned@.len() == k,
                        forall|j: int|
                            0 <= j < k ==> (#[trigger] planned@[j]).deep_view() == frame.cell(
                                row_model,
                                r as int,
                                line as int,
                                j,
                            ),
                    decreases visible.len() - k,
                {
                    proof {
                        reveal(model_of);
                    }
                    let column = visible[k];
                    let text = if line < cells[k].len() {
                        assert(cells[k as int].deep_view()[line as int]
                            == cells[k as int][line as int]@);
                        cells[k][line].clone()
                    } else {
                        String::new()
                    };
                    let emphasis = emphasis_of(in_selected_row, is_position(selected, column));
                    planned.push(PlannedCell { text, emphasis });
                    k += 1;
                }
                let ghost so_far = lines.deep_view();
                assert(planned.deep_view() =~= frame.line(row_model, r as int, line as int));
                lines.push(planned);
                proof {
                    assert(lines.deep_view() =~= so_far.push(
                        frame.line(row_model, r as int, line as int),
                    ));
                    assert(Seq::new(
                        (line + 1) as nat,
                        |l: int| frame.line(row_model, r as int, l),
                    ) =~= Seq::new(line as nat, |l: int| frame.line(row_model, r as int, l)).push(
                        frame.line(row_model, r as int, line as int),
                    ));
                }
                line += 1;
            }
            proof {
                assert(Seq::new(height as nat, |l: int| frame.line(row_model, r as int, l))
                    =~= frame.row_lines(row_model, r as int));
            }
            r += 1;
        }
        proof {
            if start > end {
                assert(frame.lines(model.rows, start as int, end as int) =~= Seq::empty());
            }
        }
        let plan = TablePlan { column_widths: widths, visible_columns: visible, visible_widths, header, lines };
        proof {
            let expected = self@.table_plan(model, area_width, area_height);
            assert(plan.visible_widths@ =~= expected.visible_widths);
            assert(plan.header.deep_view() =~= expected.header);
        }
        plan
    }
}

} // verus!
