//! Laws of the state: what holds across calls, whatever the state.

use crate::controller::Refresh;
use crate::names::{lemma_lookup_with_entry, Name};
use crate::query::QueryResultModel;
use crate::state::model::{
    first_visible, is_permutation, last_visible, lemma_moved_is_permutation, moved, next_visible,
    prev_visible, visible,
};
use crate::state::modify::{
    hidden_toggled, lemma_hidden_columns_toggled, lemma_hidden_toggled, reselected,
};
use crate::state::viewport::scrolled_to_show;
use crate::state::StateModel;
use vstd::prelude::*;

verus! {

/// Moving a column keeps the columns: where the display order held the
/// columns of the schema before, it holds them after, and the schema order
/// is not touched.
pub proof fn lemma_reorder_keeps_columns(m: StateModel, from: int, to: int)
    requires
        m.can_reorder(from, to),
    ensures
        m.reordered(from, to).virtual_order() == moved(m.virtual_order(), from, to),
        m.reordered(from, to).original_column_names == m.original_column_names,
        is_permutation(m.reordered(from, to).virtual_order(), m.virtual_order()),
        m.order_is_permutation() ==> m.reordered(from, to).order_is_permutation(),
{
    let table = m.selected_table->0;
    let after = moved(m.virtual_order(), from, to);
    lemma_lookup_with_entry(m.column_order, table, after, table);
    lemma_moved_is_permutation(m.virtual_order(), from, to);
}

/// Hiding or showing a column changes what is visible, never what there
/// is: display order and schema order stay as they are.
pub proof fn lemma_toggle_keeps_columns(m: StateModel)
    ensures
        m.visibility_toggled().virtual_order() == m.virtual_order(),
        m.visibility_toggled().original_column_names == m.original_column_names,
        m.order_is_permutation() ==> m.visibility_toggled().order_is_permutation(),
{
}

/// The visible names are the names of the order that are not hidden.
pub proof fn lemma_visible_members(order: Seq<Name>, hidden: Seq<Name>, name: Name)
    ensures
        visible(order, hidden).contains(name) <==> (order.contains(name) && !hidden.contains(name)),
{
    let keep = |n: Name| !hidden.contains(n);
    let shown = visible(order, hidden);
    if shown.contains(name) {
        let i = choose|i: int| 0 <= i < shown.len() && shown[i] == name;
        order.lemma_filter_pred(keep, i);
        order.lemma_filter_contains_rev(keep, name);
    }
    if order.contains(name) && !hidden.contains(name) {
        let i = choose|i: int| 0 <= i < order.len() && order[i] == name;
        order.lemma_filter_contains(keep, i);
    }
}

/// What `first_visible` finds is in the order and not hidden, and it
/// finds nothing only where every name of the order is hidden. The same
/// holds of `last_visible`.
pub proof fn lemma_first_and_last_visible_are_visible(order: Seq<Name>, hidden: Seq<Name>)
    ensures
        match first_visible(order, hidden) {
            Some(name) => order.contains(name) && !hidden.contains(name),
            None => forall|i: int| 0 <= i < order.len() ==> hidden.contains(#[trigger] order[i]),
        },
        match last_visible(order, hidden) {
            Some(name) => order.contains(name) && !hidden.contains(name),
            None => forall|i: int| 0 <= i < order.len() ==> hidden.contains(#[trigger] order[i]),
        },
    decreases order.len(),
{
    if order.len() > 0 {
        let tail = order.drop_first();
        let front = order.drop_last();
        lemma_first_and_last_visible_are_visible(tail, hidden);
        lemma_first_and_last_visible_are_visible(front, hidden);
        if hidden.contains(order[0]) {
            match first_visible(tail, hidden) {
                Some(name) => {
                    let i = choose|i: int| 0 <= i < tail.len() && tail[i] == name;
                    assert(order[i + 1] == name);
                },
                None => {
                    assert forall|i: int| 0 <= i < order.len() implies hidden.contains(
                        #[trigger] order[i],
                    ) by {
                        if i > 0 {
                            assert(tail[i - 1] == order[i]);
                        }
                    }
                },
            }
        } else {
            assert(order[0] == order[0]);
        }
        if hidden.contains(order.last()) {
            match last_visible(front, hidden) {
                Some(name) => {
                    let i = choose|i: int| 0 <= i < front.len() && front[i] == name;
                    assert(order[i] == name);
                },
                None => {
                    assert forall|i: int| 0 <= i < order.len() implies hidden.contains(
                        #[trigger] order[i],
                    ) by {
                        if i < front.len() {
                            assert(front[i] == order[i]);
                        }
                    }
                },
            }
        } else {
            assert(order[order.len() - 1] == order.last());
        }
    }
}

/// In an order that holds no name twice, the visible neighbour of a column
/// on either side is another column.
pub proof fn lemma_neighbour_is_another(order: Seq<Name>, hidden: Seq<Name>, current: Name)
    requires
        order.no_duplicates(),
    ensures
        next_visible(order, hidden, current) != Some(current),
        prev_visible(order, hidden, current) != Some(current),
{
    order.index_of_first_ensures(current);
    if let Some(i) = order.index_of_first(current) {
        let behind = order.skip(i + 1);
        let before = order.take(i);
        lemma_first_and_last_visible_are_visible(behind, hidden);
        lemma_first_and_last_visible_are_visible(before, hidden);
        if next_visible(order, hidden, current) == Some(current) {
            let k = choose|k: int| 0 <= k < behind.len() && behind[k] == current;
            assert(order[i + 1 + k] == order[i]);
        }
        if prev_visible(order, hidden, current) == Some(current) {
            let k = choose|k: int| 0 <= k < before.len() && before[k] == current;
            assert(order[k] == order[i]);
        }
    }
}

/// The selection never lands on a hidden column: the column selected in
/// place of one that was hidden is a column of the order that is not
/// hidden. There is none only where all columns on both sides of the
/// hidden one are hidden too.
pub proof fn lemma_reselected_is_visible(order: Seq<Name>, hidden: Seq<Name>, column: Name)
    requires
        order.contains(column),
    ensures
        match reselected(order, hidden, column) {
            Some(name) => order.contains(name) && !hidden.contains(name),
            None => forall|i: int|
                0 <= i < order.len() && i != order.index_of_first(column)->0 ==> hidden.contains(
                    #[trigger] order[i],
                ),
        },
{
    order.index_of_first_ensures(column);
    let at = order.index_of_first(column)->0;
    let behind = order.skip(at + 1);
    let before = order.take(at);
    lemma_first_and_last_visible_are_visible(behind, hidden);
    lemma_first_and_last_visible_are_visible(before, hidden);
    match next_visible(order, hidden, column) {
        Some(name) => {
            let i = choose|i: int| 0 <= i < behind.len() && behind[i] == name;
            assert(order[at + 1 + i] == name);
        },
        None => {
            match prev_visible(order, hidden, column) {
                Some(name) => {
                    let i = choose|i: int| 0 <= i < before.len() && before[i] == name;
                    assert(order[i] == name);
                },
                None => {
                    assert forall|i: int| 0 <= i < order.len() && i != at implies hidden.contains(
                        #[trigger] order[i],
                    ) by {
                        if i < at {
                            assert(before[i] == order[i]);
                        } else {
                            assert(behind[i - at - 1] == order[i]);
                        }
                    }
                },
            }
        },
    }
}

/// Hiding the selected column moves the selection to a visible column of
/// the table, or to none; any other toggle leaves the selection alone.
pub proof fn lemma_selection_survives_hide(m: StateModel)
    requires
        m.visibility_target() is Some,
    ensures
        !m.is_hidden(m.visibility_target()->0) && m.selected_column == m.visibility_target()
            ==> m.visibility_toggled().selected_column == reselected(
            m.virtual_order(),
            hidden_toggled(m.hidden_names(), m.visibility_target()->0),
            m.visibility_target()->0,
        ),
        !(!m.is_hidden(m.visibility_target()->0) && m.selected_column == m.visibility_target())
            ==> m.visibility_toggled().selected_column == m.selected_column,
        m.visibility_toggled().is_hidden(m.visibility_target()->0) == !m.is_hidden(
            m.visibility_target()->0,
        ),
        m.visibility_toggled().selected_column is Some && m.virtual_order().contains(
            m.visibility_target()->0,
        ) && m.selected_column == m.visibility_target() ==> !m.visibility_toggled().is_hidden(
            m.visibility_toggled().selected_column->0,
        ),
{
    let column = m.visibility_target()->0;
    let table = m.selected_table->0;
    lemma_hidden_columns_toggled(m.hidden_columns, table, column, table);
    lemma_hidden_toggled(m.hidden_names(), column, column);
    let after = hidden_toggled(m.hidden_names(), column);
    if m.virtual_order().contains(column) {
        lemma_reselected_is_visible(m.virtual_order(), after, column);
    }
}

/// After the window has been moved to show the selection, the selection
/// lies inside it, if the window has any row at all.
pub proof fn lemma_selection_in_view(scroll_y: usize, selected_row: usize, visible_rows: usize)
    requires
        visible_rows > 0,
    ensures
        scrolled_to_show(scroll_y as int, selected_row as int, visible_rows as int)
            <= selected_row < scrolled_to_show(
            scroll_y as int,
            selected_row as int,
            visible_rows as int,
        ) + visible_rows,
        0 <= scrolled_to_show(scroll_y as int, selected_row as int, visible_rows as int)
            <= usize::MAX,
{
}

/// New data leaves the selected column alone, and the horizontal scroll
/// too unless the selected column lies to its left. After a change of the
/// column layout the rows stay where they were; after a change of sort or
/// filter they start again at the top.
pub proof fn lemma_refresh_keeps_position(m: StateModel, purpose: Refresh, data: QueryResultModel)
    requires
        purpose != Refresh::Initial,
    ensures
        m.with_data(purpose, data).selected_column == m.selected_column,
        m.with_data(purpose, data).scroll_x <= m.scroll_x,
        (match m.with_data(purpose, data).visible_index() {
            Some(i) => i >= m.scroll_x,
            None => true,
        }) ==> m.with_data(purpose, data).scroll_x == m.scroll_x,
        purpose == Refresh::Layout ==> m.with_data(purpose, data).selected_row == m.selected_row
            && m.with_data(purpose, data).scroll_y == m.scroll_y,
        purpose != Refresh::Layout ==> m.with_data(purpose, data).selected_row == 0
            && m.with_data(purpose, data).scroll_y == 0,
{
    let loaded = if purpose == Refresh::Layout {
        StateModel { table_data: Some(data), ..m }
    } else {
        StateModel { table_data: Some(data), scroll_y: 0, selected_row: 0, ..m }
    };
    assert(loaded.visible_column_names() == m.visible_column_names());
    if let Some(name) = m.selected_column {
        loaded.visible_column_names().index_of_first_ensures(name);
    }
    assert(m.with_data(purpose, data) == loaded.column_shown());
    assert(loaded.column_shown().visible_index() == loaded.visible_index());
}

/// The state after each of `steps` in turn, a step being a move of the
/// column at one position of the display order to another; a step that
/// cannot be made is passed over.
pub open spec fn moved_along(m: StateModel, steps: Seq<(int, int)>) -> StateModel
    decreases steps.len(),
{
    if steps.len() == 0 {
        m
    } else {
        let before = moved_along(m, steps.drop_last());
        if before.can_reorder(steps.last().0, steps.last().1) {
            before.reordered(steps.last().0, steps.last().1)
        } else {
            before
        }
    }
}

/// Cancelling takes every move back: whatever columns were moved in the
/// modify mode, and however often, after a cancel the display order is the
/// one kept on entering the mode, and nothing else but the display order
/// of the selected table has changed.
pub proof fn lemma_cancel_takes_moves_back(m: StateModel, steps: Seq<(int, int)>)
    requires
        m.is_modifying,
        m.selected_table is Some,
        m.modify_backup_column_order is Some,
    ensures
        moved_along(m, steps).modification_cancelled().virtual_order()
            == m.modify_backup_column_order->0,
        moved_along(m, steps).modification_cancelled() == (StateModel {
            column_order: moved_along(m, steps).modification_cancelled().column_order,
            ..m.modification_cancelled()
        }),
        forall|other: Name|
            other != m.selected_table->0 ==> crate::names::lookup(
                moved_along(m, steps).modification_cancelled().column_order,
                other,
            ) == crate::names::lookup(m.column_order, other),
{
    let table = m.selected_table->0;
    let backup = m.modify_backup_column_order->0;
    lemma_moves_change_one_order(m, steps);
    let after = moved_along(m, steps);
    lemma_lookup_with_entry(after.column_order, table, backup, table);
    assert forall|other: Name| other != table implies crate::names::lookup(
        after.modification_cancelled().column_order,
        other,
    ) == crate::names::lookup(m.column_order, other) by {
        lemma_lookup_with_entry(after.column_order, table, backup, other);
    }
}

/// Moves of columns change the display order of the selected table and
/// nothing else.
pub proof fn lemma_moves_change_one_order(m: StateModel, steps: Seq<(int, int)>)
    ensures
        moved_along(m, steps) == (StateModel {
            column_order: moved_along(m, steps).column_order,
            ..m
        }),
        forall|other: Name|
            m.selected_table != Some(other) ==> crate::names::lookup(
                moved_along(m, steps).column_order,
                other,
            ) == crate::names::lookup(m.column_order, other),
    decreases steps.len(),
{
    if steps.len() > 0 {
        lemma_moves_change_one_order(m, steps.drop_last());
        let before = moved_along(m, steps.drop_last());
        let (from, to) = steps.last();
        if before.can_reorder(from, to) {
            let table = before.selected_table->0;
            assert forall|other: Name| m.selected_table != Some(other) implies crate::names::lookup(
                moved_along(m, steps).column_order,
                other,
            ) == crate::names::lookup(m.column_order, other) by {
                lemma_lookup_with_entry(
                    before.column_order,
                    table,
                    moved(before.virtual_order(), from, to),
                    other,
                );
            }
        }
    }
}

} // verus!
