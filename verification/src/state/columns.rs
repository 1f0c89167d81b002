//! The virtual column model of the state: display order, hidden columns,
//! expanded columns, and the selection that moves among the visible ones.

use crate::indices::{contains_index, insert_index, remove_index};
use crate::names::{
    clone_names, contains_name, drop_key, find_key, lookup, position_of, put_entry, with_entry,
    without_key, Name,
};
use crate::state::model::{
    first_visible, is_permutation, last_visible, lemma_moved_is_permutation, moved, next_visible,
    prev_visible, visible,
};
use crate::state::{ApplicationState, StateModel};
use crate::names::keys_are_distinct;
use crate::state::modify::lemma_clearing_keeps_hidden_lists_sound;
use crate::state::model_of;
use vstd::prelude::*;

verus! {

/// Sets `target` to `names` where it is empty.
fn set_if_empty(target: &mut Vec<String>, names: Vec<String>)
    ensures
        final(target).deep_view() == if old(target).deep_view().len() == 0 {
            names.deep_view()
        } else {
            old(target).deep_view()
        },
{
    if target.len() == 0 {
        *target = names;
    }
}

/// Gives `table` the display order `original` where it has none.
fn seed_order(
    column_order: &mut Vec<(String, Vec<String>)>,
    table: &Option<String>,
    original: &Vec<String>,
)
    ensures
        final(column_order).deep_view() == match table.deep_view() {
            Some(name) => if lookup(old(column_order).deep_view(), name) is None {
                with_entry(old(column_order).deep_view(), name, original.deep_view())
            } else {
                old(column_order).deep_view()
            },
            None => old(column_order).deep_view(),
        },
        keys_are_distinct(old(column_order).deep_view()) ==> keys_are_distinct(
            final(column_order).deep_view(),
        ),
{
    if let Some(name) = table {
        if find_key(column_order, name.as_str()).is_none() {
            put_entry(column_order, name.clone(), clone_names(original));
        }
    }
}

/// The positions below `n`, in order.
pub open spec fn positions(n: nat) -> Seq<usize> {
    Seq::new(n, |i: int| i as usize)
}

impl StateModel {
    /// Whether the column at position `i` of the display order is visible
    /// and known to the schema.
    pub open spec fn shows_known_column(self, i: usize) -> bool {
        &&& i < self.virtual_order().len()
        &&& !self.is_hidden(self.virtual_order()[i as int])
        &&& self.original_column_names.contains(self.virtual_order()[i as int])
    }
}

impl ApplicationState {
    /// The display order, borrowed.
    pub(crate) fn virtual_order_ref(&self) -> (order: &Vec<String>)
        ensures
            order.deep_view() == self@.virtual_order(),
    {
        proof {
            reveal(model_of);
        }
        match &self.selected_table {
            Some(table) => match find_key(&self.column_order, table.as_str()) {
                Some(i) => {
                    assert(self.column_order.deep_view()[i as int].1
                        == self.column_order[i as int].1.deep_view());
                    &self.column_order[i].1
                },
                None => &self.original_column_names,
            },
            None => &self.original_column_names,
        }
    }

    /// The hidden columns of the selected table, borrowed, if any are kept.
    pub(crate) fn hidden_ref(&self) -> (hidden: Option<&Vec<String>>)
        ensures
            match hidden {
                Some(names) => names.deep_view() == self@.hidden_names() && self@.selected_table
                    is Some && lookup(self@.hidden_columns, self@.selected_table->0) is Some,
                None => self@.hidden_names() == Seq::<Name>::empty() && (self@.selected_table
                    is None || lookup(self@.hidden_columns, self@.selected_table->0) is None),
            },
    {
        proof {
            reveal(model_of);
        }
        match &self.selected_table {
            Some(table) => match find_key(&self.hidden_columns, table.as_str()) {
                Some(i) => {
                    assert(self.hidden_columns.deep_view()[i as int].1
                        == self.hidden_columns[i as int].1.deep_view());
                    Some(&self.hidden_columns[i].1)
                },
                None => None,
            },
            None => None,
        }
    }

    /// Takes note of the columns of the selected table. The schema order
    /// is set where none is known yet, and becomes the display order of
    /// the table where the table has none.
    pub fn initialize_column_order(&mut self, column_names: Vec<String>)
        ensures
            final(self)@ == (StateModel {
                original_column_names: final(self)@.original_column_names,
                column_order: final(self)@.column_order,
                ..old(self)@
            }),
            final(self)@.original_column_names == if old(self)@.original_column_names.len() == 0 {
                column_names.deep_view()
            } else {
                old(self)@.original_column_names
            },
            final(self)@.column_order == match old(self)@.selected_table {
                Some(table) => if lookup(old(self)@.column_order, table) is None {
                    with_entry(
                        old(self)@.column_order,
                        table,
                        final(self)@.original_column_names,
                    )
                } else {
                    old(self)@.column_order
                },
                None => old(self)@.column_order,
            },
            old(self)@.well_formed() ==> final(self)@.well_formed(),
    {
        proof {
            reveal(model_of);
        }
        set_if_empty(&mut self.original_column_names, column_names);
        seed_order(&mut self.column_order, &self.selected_table, &self.original_column_names);
    }

    /// The display order of the columns.
    pub fn get_virtual_column_order(&self) -> (order: Vec<String>)
        ensures
            order.deep_view() == self@.virtual_order(),
    {
        proof {
            reveal(model_of);
        }
        clone_names(self.virtual_order_ref())
    }

    /// Moves the column at `from_index` of the display order to `to_index`.
    /// Says whether it did: not without a selected table, nor with an index
    /// beyond the order.
    pub fn reorder_column(&mut self, from_index: usize, to_index: usize) -> (done: bool)
        ensures
            done == (old(self)@.selected_table is Some && from_index < old(
                self
            )@.virtual_order().len() && to_index < old(self)@.virtual_order().len()),
            !done ==> final(self)@ == old(self)@,
            done ==> final(self)@ == (StateModel {
                column_order: with_entry(
                    old(self)@.column_order,
                    old(self)@.selected_table->0,
                    moved(old(self)@.virtual_order(), from_index as int, to_index as int),
                ),
                ..old(self)@
            }),
            done ==> final(self)@.virtual_order() == moved(
                old(self)@.virtual_order(),
                from_index as int,
                to_index as int,
            ),
            is_permutation(final(self)@.virtual_order(), old(self)@.virtual_order()),
            old(self)@.order_is_permutation() ==> final(self)@.order_is_permutation(),
            old(self)@.well_formed() ==> final(self)@.well_formed(),
    {
        proof {
            reveal(model_of);
        }
        let table = match &self.selected_table {
            Some(table) => table.clone(),
            None => {
                return false;
            },
        };
        let mut virtual_order = self.get_virtual_column_order();
        if from_index >= virtual_order.len() || to_index >= virtual_order.len() {
            return false;
        }
        let ghost before = virtual_order.deep_view();
        let moved_column = virtual_order.remove(from_index);
        assert(virtual_order.deep_view() =~= before.remove(from_index as int));
        virtual_order.insert(to_index, moved_column);
        assert(virtual_order.deep_view() =~= moved(before, from_index as int, to_index as int));
        proof {
            lemma_moved_is_permutation(before, from_index as int, to_index as int);
            crate::names::lemma_lookup_with_entry(
                self@.column_order,
                table@,
                virtual_order.deep_view(),
                table@,
            );
        }
        put_entry(&mut self.column_order, table, virtual_order);
        true
    }

    /// Whether the selected table has hidden columns.
    pub fn has_hidden_columns(&self) -> (any: bool)
        ensures
            any == (self@.hidden_names().len() > 0),
    {
        proof {
            reveal(model_of);
        }
        match self.hidden_ref() {
            Some(hidden) => hidden.len() > 0,
            None => false,
        }
    }

    /// Forgets the display order of the selected table, which goes back to
    /// the schema order.
    pub fn reset_column_order(&mut self)
        ensures
            final(self)@ == match old(self)@.selected_table {
                Some(table) => StateModel {
                    column_order: without_key(old(self)@.column_order, table),
                    ..old(self)@
                },
                None => old(self)@,
            },
            old(self)@.selected_table is Some ==> final(self)@.virtual_order() == old(
                self
            )@.original_column_names,
            old(self)@.well_formed() ==> final(self)@.well_formed(),
    {
        proof {
            reveal(model_of);
        }
        if let Some(table) = &self.selected_table {
            proof {
                crate::names::lemma_lookup_without_key(self@.column_order, table@, table@);
            }
            drop_key(&mut self.column_order, table.as_str());
        }
    }

    /// The position in the data of the column at a position of the display.
    pub fn virtual_to_physical_index(&self, virtual_index: usize) -> (index: usize)
        ensures
            index == virtual_index,
    {
        proof {
            reveal(model_of);
        }
        virtual_index
    }

    /// The position in the display of the column at a position of the data.
    pub fn physical_to_virtual_index(&self, physical_index: usize) -> (index: usize)
        ensures
            index == physical_index,
    {
        proof {
            reveal(model_of);
        }
        physical_index
    }

    /// The columns in display order, hidden ones included.
    pub fn get_column_names(&self) -> (names: Vec<String>)
        ensures
            names.deep_view() == self@.virtual_order(),
    {
        proof {
            reveal(model_of);
        }
        self.get_virtual_column_order()
    }

    /// The columns in schema order.
    pub fn get_original_column_names(&self) -> (names: Vec<String>)
        ensures
            names.deep_view() == self@.original_column_names,
    {
        proof {
            reveal(model_of);
        }
        clone_names(&self.original_column_names)
    }

    /// The position of `column_name` in the display order.
    pub fn get_column_index_by_name(&self, column_name: &str) -> (index: Option<usize>)
        ensures
            match index {
                Some(i) => self@.virtual_order().index_of_first(column_name@) == Some(i as int),
                None => self@.virtual_order().index_of_first(column_name@) is None,
            },
    {
        proof {
            reveal(model_of);
        }
        position_of(self.virtual_order_ref(), column_name)
    }

    /// The column at `index` of the display order.
    pub fn get_column_name_by_index(&self, index: usize) -> (name: Option<String>)
        ensures
            name.deep_view() == if index < self@.virtual_order().len() {
                Some(self@.virtual_order()[index as int])
            } else {
                None
            },
    {
        proof {
            reveal(model_of);
        }
        let order = self.virtual_order_ref();
        if index < order.len() {
            Some(order[index].clone())
        } else {
            None
        }
    }

    /// The position of the selected column in the display order.
    pub fn get_selected_column_index(&self) -> (index: Option<usize>)
        ensures
            match index {
                Some(i) => self@.selected_column_index() == Some(i as int),
                None => self@.selected_column_index() is None,
            },
    {
        proof {
            reveal(model_of);
        }
        match &self.selected_column {
            Some(name) => self.get_column_index_by_name(name.as_str()),
            None => None,
        }
    }

    /// Whether the column `column_name` of the selected table is hidden.
    pub fn is_column_hidden_by_name(&self, column_name: &str) -> (hidden: bool)
        ensures
            hidden == self@.is_hidden(column_name@),
    {
        proof {
            reveal(model_of);
        }
        match self.hidden_ref() {
            Some(names) => contains_name(names, column_name),
            None => false,
        }
    }

    /// Whether the column at `column_index` of the display order is hidden.
    pub fn is_column_hidden(&self, column_index: usize) -> (hidden: bool)
        ensures
            hidden == (column_index < self@.virtual_order().len() && self@.is_hidden(
                self@.virtual_order()[column_index as int],
            )),
    {
        proof {
            reveal(model_of);
        }
        let order = self.virtual_order_ref();
        if column_index < order.len() {
            self.is_column_hidden_by_name(order[column_index].as_str())
        } else {
            false
        }
    }

    /// The first visible column behind `current_column`.
    pub fn get_next_visible_column(&self, current_column: &str) -> (name: Option<String>)
        ensures
            name.deep_view() == next_visible(
                self@.virtual_order(),
                self@.hidden_names(),
                current_column@,
            ),
    {
        proof {
            reveal(model_of);
        }
        let order = self.virtual_order_ref();
        match position_of(order, current_column) {
            Some(current) => {
                let mut idx: usize = current + 1;
                assert(order.deep_view().skip(idx as int).len() == order.len() - idx);
                while idx < order.len()
                    invariant
                        current < idx <= order.len(),
                        order.deep_view() == self@.virtual_order(),
                        order.deep_view().index_of_first(current_column@) == Some(current as int),
                        first_visible(order.deep_view().skip(idx as int), self@.hidden_names())
                            == first_visible(
                            order.deep_view().skip(current + 1),
                            self@.hidden_names(),
                        ),
                    decreases order.len() - idx,
                {
                    proof {
                        reveal(model_of);
                    }
                    let ghost rest = order.deep_view().skip(idx as int);
                    assert(rest[0] == order[idx as int]@);
                    assert(rest.drop_first() =~= order.deep_view().skip(idx + 1));
                    if !self.is_column_hidden_by_name(order[idx].as_str()) {
                        assert(first_visible(rest, self@.hidden_names()) == Some(rest[0]));
                        return Some(order[idx].clone());
                    }
                    idx += 1;
                }
                assert(order.deep_view().skip(idx as int).len() == 0);
                None
            },
            None => None,
        }
    }

    /// The last visible column before `current_column`.
    pub fn get_prev_visible_column(&self, current_column: &str) -> (name: Option<String>)
        ensures
            name.deep_view() == prev_visible(
                self@.virtual_order(),
                self@.hidden_names(),
                current_column@,
            ),
    {
        proof {
            reveal(model_of);
        }
        let order = self.virtual_order_ref();
        match position_of(order, current_column) {
            Some(current) => {
                let mut idx: usize = current;
                while idx > 0
                    invariant
                        idx <= current < order.len(),
                        order.deep_view() == self@.virtual_order(),
                        order.deep_view().index_of_first(current_column@) == Some(current as int),
                        last_visible(order.deep_view().take(idx as int), self@.hidden_names())
                            == last_visible(
                            order.deep_view().take(current as int),
                            self@.hidden_names(),
                        ),
                    decreases idx,
                {
                    proof {
                        reveal(model_of);
                    }
                    let ghost front = order.deep_view().take(idx as int);
                    assert(front.last() == order[idx - 1]@);
                    assert(front.drop_last() =~= order.deep_view().take(idx - 1));
                    if !self.is_column_hidden_by_name(order[idx - 1].as_str()) {
                        assert(last_visible(front, self@.hidden_names()) == Some(front.last()));
                        return Some(order[idx - 1].clone());
                    }
                    idx -= 1;
                }
                assert(order.deep_view().take(0).len() == 0);
                None
            },
            None => None,
        }
    }

    /// The first visible column.
    pub fn get_first_visible_column(&self) -> (name: Option<String>)
        ensures
            name.deep_view() == first_visible(self@.virtual_order(), self@.hidden_names()),
    {
        proof {
            reveal(model_of);
        }
        let order = self.virtual_order_ref();
        let mut idx: usize = 0;
        assert(order.deep_view().skip(0) =~= order.deep_view());
        while idx < order.len()
            invariant
                idx <= order.len(),
                order.deep_view() == self@.virtual_order(),
                first_visible(order.deep_view().skip(idx as int), self@.hidden_names())
                    == first_visible(order.deep_view(), self@.hidden_names()),
            decreases order.len() - idx,
        {
            proof {
                reveal(model_of);
            }
            let ghost rest = order.deep_view().skip(idx as int);
            assert(rest[0] == order[idx as int]@);
            assert(rest.drop_first() =~= order.deep_view().skip(idx + 1));
            if !self.is_column_hidden_by_name(order[idx].as_str()) {
                return Some(order[idx].clone());
            }
            idx += 1;
        }
        assert(order.deep_view().skip(idx as int).len() == 0);
        None
    }

    /// The last visible column.
    pub fn get_last_visible_column(&self) -> (name: Option<String>)
        ensures
            name.deep_view() == last_visible(self@.virtual_order(), self@.hidden_names()),
    {
        proof {
            reveal(model_of);
        }
        let order = self.virtual_order_ref();
        let mut idx: usize = order.len();
        assert(order.deep_view().take(idx as int) =~= order.deep_view());
        while idx > 0
            invariant
                idx <= order.len(),
                order.deep_view() == self@.virtual_order(),
                last_visible(order.deep_view().take(idx as int), self@.hidden_names())
                    == last_visible(order.deep_view(), self@.hidden_names()),
            decreases idx,
        {
            proof {
                reveal(model_of);
            }
            let ghost front = order.deep_view().take(idx as int);
            assert(front.last() == order[idx - 1]@);
            assert(front.drop_last() =~= order.deep_view().take(idx - 1));
            if !self.is_column_hidden_by_name(order[idx - 1].as_str()) {
                return Some(order[idx - 1].clone());
            }
            idx -= 1;
        }
        assert(order.deep_view().take(0).len() == 0);
        None
    }

    /// The columns on display, in display order: the display order without
    /// the hidden columns.
    pub fn get_visible_column_names(&self) -> (names: Vec<String>)
        ensures
            names.deep_view() == self@.visible_column_names(),
    {
        proof {
            reveal(model_of);
        }
        let order = self.virtual_order_ref();
        let ghost hidden = self@.hidden_names();
        let ghost keep = |n: Name| !hidden.contains(n);
        let mut names: Vec<String> = Vec::new();
        let mut idx: usize = 0;
        proof {
            reveal(Seq::filter);
            assert(order.deep_view().take(0).filter(keep) =~= Seq::<Name>::empty());
            assert(names.deep_view() =~= Seq::<Name>::empty());
        }
        while idx < order.len()
            invariant
                idx <= order.len(),
                order.deep_view() == self@.virtual_order(),
                hidden == self@.hidden_names(),
                keep == |n: Name| !hidden.contains(n),
                names.deep_view() == order.deep_view().take(idx as int).filter(keep),
            decreases order.len() - idx,
        {
            proof {
                reveal(model_of);
            }
            let ghost done = order.deep_view().take(idx as int);
            let ghost kept = names.deep_view();
            proof {
                assert(order.deep_view().take(idx + 1) =~= done.push(order[idx as int]@));
                done.lemma_filter_push(order[idx as int]@, keep);
            }
            if !self.is_column_hidden_by_name(order[idx].as_str()) {
                names.push(order[idx].clone());
                assert(names.deep_view() =~= kept.push(order[idx as int]@));
            }
            idx += 1;
        }
        assert(order.deep_view().take(idx as int) =~= order.deep_view());
        names
    }

    /// The positions in the display order of the visible columns that the
    /// schema knows, in rising order.
    pub fn get_visible_columns(&self) -> (indices: Vec<usize>)
        ensures
            indices@ == positions(self@.virtual_order().len()).filter(
                |i: usize| self@.shows_known_column(i),
            ),
    {
        proof {
            reveal(model_of);
        }
        let order = self.virtual_order_ref();
        let ghost keep = |i: usize| self@.shows_known_column(i);
        let mut indices: Vec<usize> = Vec::new();
        let mut idx: usize = 0;
        proof {
            reveal(Seq::filter);
            assert(positions(0).filter(keep) =~= Seq::<usize>::empty());
        }
        while idx < order.len()
            invariant
                idx <= order.len(),
                order.deep_view() == self@.virtual_order(),
                keep == |i: usize| self@.shows_known_column(i),
                indices@ == positions(idx as nat).filter(keep),
            decreases order.len() - idx,
        {
            proof {
                reveal(model_of);
            }
            proof {
                assert(positions((idx + 1) as nat) =~= positions(idx as nat).push(idx));
                positions(idx as nat).lemma_filter_push(idx, keep);
                assert(order.deep_view()[idx as int] == order[idx as int]@);
            }
            if !self.is_column_hidden_by_name(order[idx].as_str()) && contains_name(
                &self.original_column_names,
                order[idx].as_str(),
            ) {
                indices.push(idx);
            }
            idx += 1;
        }
        indices
    }

    /// The hidden columns of the selected table.
    pub fn get_hidden_columns(&self) -> (hidden: Vec<String>)
        ensures
            hidden.deep_view() == self@.hidden_names(),
    {
        proof {
            reveal(model_of);
        }
        match self.hidden_ref() {
            Some(names) => clone_names(names),
            None => {
                let hidden: Vec<String> = Vec::new();
                assert(hidden.deep_view() =~= Seq::<Name>::empty());
                hidden
            },
        }
    }

    /// Shows all columns of the selected table again.
    pub fn clear_hidden_columns(&mut self)
        ensures
            final(self)@ == match old(self)@.selected_table {
                Some(table) => StateModel {
                    hidden_columns: without_key(old(self)@.hidden_columns, table),
                    ..old(self)@
                },
                None => old(self)@,
            },
            final(self)@.hidden_names() == Seq::<Name>::empty(),
            old(self)@.well_formed() ==> final(self)@.well_formed(),
    {
        proof {
            reveal(model_of);
        }
        if let Some(table) = &self.selected_table {
            proof {
                crate::names::lemma_lookup_without_key(self@.hidden_columns, table@, table@);
                if self@.well_formed() {
                    lemma_clearing_keeps_hidden_lists_sound(self@.hidden_columns, table@);
                }
            }
            drop_key(&mut self.hidden_columns, table.as_str());
        }
    }

    /// Expands the selected column, or collapses it where it is expanded.
    /// Expanded columns are kept by their position among the visible
    /// columns, so hiding or moving a column changes which column a
    /// position stands for.
    pub fn toggle_column_expansion(&mut self)
        ensures
            final(self)@ == match old(self)@.visible_index() {
                Some(i) => StateModel {
                    expanded_columns: if old(self)@.expanded_columns.contains(i as usize) {
                        old(self)@.expanded_columns.remove(i as usize)
                    } else {
                        old(self)@.expanded_columns.insert(i as usize)
                    },
                    ..old(self)@
                },
                None => old(self)@,
            },
    {
        proof {
            reveal(model_of);
        }
        if let Some(selected_idx) = self.get_selected_visible_index() {
            if contains_index(&self.expanded_columns, selected_idx) {
                remove_index(&mut self.expanded_columns, selected_idx);
            } else {
                insert_index(&mut self.expanded_columns, selected_idx);
            }
        }
    }

    /// Whether the column at `column_index` of the visible columns is
    /// expanded.
    pub fn is_column_expanded(&self, column_index: usize) -> (expanded: bool)
        ensures
            expanded == self@.expanded_columns.contains(column_index),
    {
        proof {
            reveal(model_of);
        }
        contains_index(&self.expanded_columns, column_index)
    }

    /// Collapses all columns.
    pub fn clear_expanded_columns(&mut self)
        ensures
            final(self)@ == (StateModel { expanded_columns: Set::empty(), ..old(self)@ }),
    {
        proof {
            reveal(model_of);
        }
        self.expanded_columns = Vec::new();
        assert(self.expanded_columns@.to_set() =~= Set::empty());
    }
}

} // verus!
