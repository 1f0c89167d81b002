//! The layout of the table: how wide each column is, which columns and
//! rows fit into the area, and how many lines a row takes once its
//! expanded cells are wrapped.

use crate::text::{wrap_text, wrapped};
use vstd::prelude::*;
use vstd::string::*;

verus! {

/// The least width of a column.
pub const MIN_COLUMN_WIDTH: usize = 8;

/// The greatest width of a column that is not expanded.
pub const NORMAL_COLUMN_CAP: usize = 25;

/// The greatest width of an expanded column.
pub const EXPANDED_COLUMN_CAP: usize = 50;

/// Rows from the top of the data that settle the width of a column that
/// is not expanded.
pub const SAMPLED_ROWS: usize = 10;

/// The larger of two numbers.
pub open spec fn larger(a: nat, b: nat) -> nat {
    if a >= b {
        a
    } else {
        b
    }
}

/// The width of a column whose header takes `header` characters and whose
/// widest sampled cell takes `widest`: the larger of the two, at least the
/// least width, at most the cap that goes with the expansion state.
pub open spec fn column_width_for(header: nat, widest: nat, expanded: bool) -> nat {
    let wanted = larger(larger(header, widest), MIN_COLUMN_WIDTH as nat);
    let cap = if expanded {
        EXPANDED_COLUMN_CAP as nat
    } else {
        NORMAL_COLUMN_CAP as nat
    };
    if wanted <= cap {
        wanted
    } else {
        cap
    }
}

/// The cell of `row` in `column`, empty where the row is too short.
pub open spec fn cell_at(row: Seq<Seq<char>>, column: int) -> Seq<char> {
    if 0 <= column < row.len() {
        row[column]
    } else {
        Seq::empty()
    }
}

/// The greatest number of characters that a cell of `column` has in `rows`.
pub open spec fn widest_cell_in(rows: Seq<Seq<Seq<char>>>, column: int) -> nat
    decreases rows.len(),
{
    if rows.len() == 0 {
        0
    } else {
        larger(widest_cell_in(rows.drop_last(), column), cell_at(rows.last(), column).len())
    }
}

/// The rows from `start` up to `end`; none where that is no window of the
/// rows.
pub open spec fn row_window(rows: Seq<Seq<Seq<char>>>, start: int, end: int) -> Seq<
    Seq<Seq<char>>,
> {
    if 0 <= start <= end <= rows.len() {
        rows.subrange(start, end)
    } else {
        Seq::empty()
    }
}

/// The rows that settle the width of a column: for an expanded column
/// those in the window from `start` to `end`, for any other the first few
/// rows of the data.
pub open spec fn sampled_rows(
    rows: Seq<Seq<Seq<char>>>,
    expanded: bool,
    start: int,
    end: int,
) -> Seq<Seq<Seq<char>>> {
    if expanded {
        row_window(rows, start, end)
    } else if rows.len() <= SAMPLED_ROWS {
        rows
    } else {
        rows.take(SAMPLED_ROWS as int)
    }
}

/// How many of `sizes`, taken from the front, fit into `available` one
/// after another.
pub open spec fn packed(sizes: Seq<nat>, available: int) -> nat
    decreases sizes.len(),
{
    if sizes.len() == 0 || sizes[0] > available {
        0
    } else {
        1 + packed(sizes.drop_first(), available - sizes[0])
    }
}

/// The columns on display: those from `scroll_x` on that fit into
/// `available` side by side, and the one at `scroll_x` alone where not
/// even that one fits.
pub open spec fn visible_columns_of(widths: Seq<usize>, available: int, scroll_x: int) -> Seq<
    usize,
> {
    if 0 <= scroll_x < widths.len() {
        let fitting = packed(widths.skip(scroll_x).map_values(|w: usize| w as nat), available);
        let shown = if fitting == 0 {
            1
        } else {
            fitting
        };
        Seq::new(shown, |k: int| (scroll_x + k) as usize)
    } else {
        Seq::empty()
    }
}

/// The width of `column`, the least width where `widths` does not reach
/// that far.
pub open spec fn width_at(widths: Seq<usize>, column: int) -> nat {
    if 0 <= column < widths.len() {
        widths[column] as nat
    } else {
        MIN_COLUMN_WIDTH as nat
    }
}

/// The lines that a cell takes: those of its wrapped text where the
/// column is expanded, one where it is not.
pub open spec fn cell_lines(cell: Seq<char>, width: nat, expanded: bool) -> nat {
    if expanded {
        wrapped(cell, width).len()
    } else {
        1
    }
}

/// The lines that `row` takes on display: as many as its tallest cell
/// among the `visible` columns, and one at least.
pub open spec fn row_height(
    row: Seq<Seq<char>>,
    widths: Seq<usize>,
    visible: Seq<usize>,
    expanded: Set<usize>,
) -> nat
    decreases visible.len(),
{
    if visible.len() == 0 {
        1
    } else {
        let column = visible.last();
        larger(
            row_height(row, widths, visible.drop_last(), expanded),
            cell_lines(
                cell_at(row, column as int),
                width_at(widths, column as int),
                expanded.contains(column),
            ),
        )
    }
}

/// The heights of the rows from `start` on.
pub open spec fn row_heights(
    rows: Seq<Seq<Seq<char>>>,
    start: int,
    widths: Seq<usize>,
    visible: Seq<usize>,
    expanded: Set<usize>,
) -> Seq<nat> {
    if 0 <= start <= rows.len() {
        rows.skip(start).map_values(
            |row: Seq<Seq<char>>| row_height(row, widths, visible, expanded),
        )
    } else {
        Seq::empty()
    }
}

/// The rows on display: as many rows from `start` on as fit into
/// `available` lines one below the other, and one at least.
pub open spec fn rows_fitting(heights: Seq<nat>, available: int) -> nat {
    let fitting = packed(heights, available);
    if fitting == 0 {
        1
    } else {
        fitting
    }
}

/// What fits is never more than what there is.
pub proof fn lemma_packed_bound(sizes: Seq<nat>, available: int)
    ensures
        packed(sizes, available) <= sizes.len(),
    decreases sizes.len(),
{
    if sizes.len() > 0 && sizes[0] <= available {
        lemma_packed_bound(sizes.drop_first(), available - sizes[0]);
    }
}

/// The width of a column.
pub fn column_width(header_width: usize, widest_cell: usize, expanded: bool) -> (width: usize)
    ensures
        width == column_width_for(header_width as nat, widest_cell as nat, expanded),
        MIN_COLUMN_WIDTH <= width <= EXPANDED_COLUMN_CAP,
{
    let mut wanted = if header_width >= widest_cell {
        header_width
    } else {
        widest_cell
    };
    if wanted < MIN_COLUMN_WIDTH {
        wanted = MIN_COLUMN_WIDTH;
    }
    let cap = if expanded {
        EXPANDED_COLUMN_CAP
    } else {
        NORMAL_COLUMN_CAP
    };
    if wanted <= cap {
        wanted
    } else {
        cap
    }
}

/// The greatest number of characters that a cell of `column` has in the
/// rows from `start` up to `end`.
pub fn widest_cell(rows: &Vec<Vec<String>>, column: usize, start: usize, end: usize) -> (widest:
    usize)
    ensures
        widest == widest_cell_in(row_window(rows.deep_view(), start as int, end as int), column as int),
{
    if !(start <= end && end <= rows.len()) {
        return 0;
    }
    let mut widest: usize = 0;
    let mut r: usize = start;
    assert(rows.deep_view().subrange(start as int, start as int) =~= Seq::empty());
    while r < end
        invariant
            start <= r <= end <= rows.len(),
            widest == widest_cell_in(
                rows.deep_view().subrange(start as int, r as int),
                column as int,
            ),
        decreases end - r,
    {
        let ghost next = rows.deep_view().subrange(start as int, r + 1);
        assert(next.drop_last() =~= rows.deep_view().subrange(start as int, r as int));
        assert(next.last() == rows[r as int].deep_view());
        if column < rows[r].len() {
            assert(rows[r as int].deep_view()[column as int] == rows[r as int][column as int]@);
            let count = rows[r][column].as_str().unicode_len();
            if count > widest {
                widest = count;
            }
        }
        r += 1;
    }
    widest
}

/// The columns on display from `scroll_x` on in an area that is
/// `available_width` wide.
pub fn visible_columns(widths: &Vec<usize>, available_width: usize, scroll_x: usize) -> (visible:
    Vec<usize>)
    ensures
        visible@ == visible_columns_of(widths@, available_width as int, scroll_x as int),
        forall|k: int| 0 <= k < visible@.len() ==> visible@[k] < widths.len(),
{
    let mut visible: Vec<usize> = Vec::new();
    if scroll_x >= widths.len() {
        assert(visible@ =~= Seq::empty());
        return visible;
    }
    let ghost sizes = widths@.skip(scroll_x as int).map_values(|w: usize| w as nat);
    let mut used: usize = 0;
    let mut i: usize = scroll_x;
    assert(sizes.skip(0) =~= sizes);
    while i < widths.len() && widths[i] <= available_width - used
        invariant
            scroll_x <= i <= widths.len(),
            used <= available_width,
            sizes == widths@.skip(scroll_x as int).map_values(|w: usize| w as nat),
            visible@ == Seq::new((i - scroll_x) as nat, |k: int| (scroll_x + k) as usize),
            packed(sizes, available_width as int) == (i - scroll_x) + packed(
                sizes.skip(i - scroll_x),
                available_width - used,
            ),
        decreases widths.len() - i,
    {
        let ghost rest = sizes.skip(i - scroll_x);
        proof {
            assert(rest[0] == widths@[i as int] as nat);
            assert(rest.drop_first() =~= sizes.skip(i - scroll_x + 1));
        }
        visible.push(i);
        used = used + widths[i];
        i += 1;
        assert(visible@ =~= Seq::new((i - scroll_x) as nat, |k: int| (scroll_x + k) as usize));
    }
    proof {
        let rest = sizes.skip(i - scroll_x);
        if i < widths.len() {
            assert(rest[0] == widths@[i as int] as nat);
        } else {
            assert(rest.len() == 0);
        }
        assert(packed(rest, available_width - used) == 0);
    }
    if visible.len() == 0 {
        visible.push(scroll_x);
        assert(visible@ =~= Seq::new(1, |k: int| (scroll_x + k) as usize));
    }
    visible
}

/// The lines that `row` takes on display.
pub fn wrap_row(
    row: &Vec<String>,
    widths: &Vec<usize>,
    visible: &Vec<usize>,
    expanded: &Vec<usize>,
) -> (lines: usize)
    ensures
        lines == row_height(row.deep_view(), widths@, visible@, expanded@.to_set()),
        lines >= 1,
{
    let mut lines: usize = 1;
    let mut k: usize = 0;
    assert(visible@.take(0) =~= Seq::empty());
    while k < visible.len()
        invariant
            k <= visible.len(),
            lines >= 1,
            lines == row_height(
                row.deep_view(),
                widths@,
                visible@.take(k as int),
                expanded@.to_set(),
            ),
        decreases visible.len() - k,
    {
        let column = visible[k];
        let ghost next = visible@.take(k + 1);
        assert(next.drop_last() =~= visible@.take(k as int));
        assert(next.last() == column);
        if crate::indices::contains_index(expanded, column) {
            let width = if column < widths.len() {
                widths[column]
            } else {
                MIN_COLUMN_WIDTH
            };
            let count = if column < row.len() {
                assert(row.deep_view()[column as int] == row[column as int]@);
                wrap_text(row[column].as_str(), width).len()
            } else {
                wrap_text("", width).len()
            };
            proof {
                reveal_strlit("");
                assert(""@ =~= Seq::<char>::empty());
            }
            if count > lines {
                lines = count;
            }
        }
        k += 1;
    }
    assert(visible@.take(k as int) =~= visible@);
    lines
}

/// The rows on display from `start` on in an area of `available_height`
/// lines.
pub fn rows_that_fit(
    rows: &Vec<Vec<String>>,
    start: usize,
    available_height: usize,
    widths: &Vec<usize>,
    visible: &Vec<usize>,
    expanded: &Vec<usize>,
) -> (count: usize)
    ensures
        count == rows_fitting(
            row_heights(rows.deep_view(), start as int, widths@, visible@, expanded@.to_set()),
            available_height as int,
        ),
        count >= 1,
{
    let ghost heights = row_heights(
        rows.deep_view(),
        start as int,
        widths@,
        visible@,
        expanded@.to_set(),
    );
    if start >= rows.len() {
        assert(heights.len() == 0);
        return 1;
    }
    let mut used: usize = 0;
    let mut count: usize = 0;
    let mut r: usize = start;
    assert(heights.skip(0) =~= heights);
    loop
        invariant_except_break
            start <= r <= rows.len(),
            used <= available_height,
            count == r - start,
            heights == row_heights(
                rows.deep_view(),
                start as int,
                widths@,
                visible@,
                expanded@.to_set(),
            ),
            heights.len() == rows.len() - start,
            packed(heights, available_height as int) == count + packed(
                heights.skip(count as int),
                available_height - used,
            ),
        ensures
            count == packed(heights, available_height as int),
        decreases rows.len() - r,
    {
        if r >= rows.len() {
            assert(heights.skip(count as int).len() == 0);
            break ;
        }
        let lines = wrap_row(&rows[r], widths, visible, expanded);
        let ghost rest = heights.skip(count as int);
        proof {
            assert(rest[0] == heights[count as int]);
            assert(rows.deep_view().skip(start as int)[count as int] == rows[r as int].deep_view());
            assert(rest.drop_first() =~= heights.skip(count + 1));
        }
        if lines <= available_height - used {
            used = used + lines;
            count += 1;
            r += 1;
        } else {
            break ;
        }
    }
    if count == 0 {
        1
    } else {
        count
    }
}

} // verus!
