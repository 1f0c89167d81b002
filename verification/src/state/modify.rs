//! The modify mode: moving columns to the edges of the display order,
//! hiding and showing them, and taking a change back.

use crate::names::{
    clone_names, contains_name, drop_key, find_key, keys, keys_are_distinct,
    lemma_lookup_with_entry, lemma_lookup_without_key, lemma_with_entry_keeps_keys_distinct,
    lemma_without_key_is_within, lemma_without_name_keeps_distinct, lookup, put_entry,
    remove_name, with_entry, without_key, without_name, Name,
};
use crate::state::model::{
    hidden_lists_are_sound, is_permutation, moved, next_visible, prev_visible,
};
use crate::state::{ApplicationState, StateModel};
use crate::strings::same_text;
use crate::state::model_of;
use vstd::prelude::*;

verus! {

/// The hidden columns that `entries` keeps for `table`.
pub open spec fn hidden_list(entries: Seq<(Name, Seq<Name>)>, table: Name) -> Seq<Name> {
    match lookup(entries, table) {
        Some(hidden) => hidden,
        None => Seq::empty(),
    }
}

/// The hidden columns after a toggle of `column`: without it where it was
/// hidden, with it at the end where it was not.
pub open spec fn hidden_toggled(hidden: Seq<Name>, column: Name) -> Seq<Name> {
    if hidden.contains(column) {
        without_name(hidden, column)
    } else {
        hidden.push(column)
    }
}

/// The entries after a toggle of `column` of `table`. A table without
/// hidden columns has no entry.
pub open spec fn hidden_columns_toggled(
    entries: Seq<(Name, Seq<Name>)>,
    table: Name,
    column: Name,
) -> Seq<(Name, Seq<Name>)> {
    let after = hidden_toggled(hidden_list(entries, table), column);
    if after.len() == 0 {
        without_key(entries, table)
    } else {
        with_entry(entries, table, after)
    }
}

/// A toggle leaves each table with one list of hidden columns at most, and
/// no list with a column twice.
pub proof fn lemma_toggle_keeps_hidden_lists_sound(
    entries: Seq<(Name, Seq<Name>)>,
    table: Name,
    column: Name,
)
    requires
        hidden_lists_are_sound(entries),
    ensures
        hidden_lists_are_sound(hidden_columns_toggled(entries, table, column)),
{
    reveal(hidden_lists_are_sound);
    reveal(keys_are_distinct);
    let before = hidden_list(entries, table);
    let list = hidden_toggled(before, column);
    let after = hidden_columns_toggled(entries, table, column);
    keys(entries).index_of_first_ensures(table);
    if before.contains(column) {
        lemma_without_name_keeps_distinct(before, column);
    } else {
        assert forall|a: int, b: int|
            0 <= a < list.len() && 0 <= b < list.len() && a != b implies list[a] != list[b] by {
            if a < before.len() && before[a] == column {
                assert(before.contains(column));
            }
            if b < before.len() && before[b] == column {
                assert(before.contains(column));
            }
        }
    }
    if list.len() == 0 {
        lemma_clearing_keeps_hidden_lists_sound(entries, table);
    } else {
        lemma_with_entry_keeps_keys_distinct(entries, table, list);
        assert forall|i: int| 0 <= i < after.len() implies (
        #[trigger] after[i]).1.no_duplicates() by {
            if i < entries.len() && after[i] == entries[i] {
                assert(entries[i].1.no_duplicates());
            }
        }
    }
}

/// Showing all columns of a table again leaves each other table with its
/// one list of hidden columns.
pub proof fn lemma_clearing_keeps_hidden_lists_sound(entries: Seq<(Name, Seq<Name>)>, table: Name)
    requires
        hidden_lists_are_sound(entries),
    ensures
        hidden_lists_are_sound(without_key(entries, table)),
{
    reveal(hidden_lists_are_sound);
    let after = without_key(entries, table);
    lemma_without_key_is_within(entries, table);
    assert forall|i: int| 0 <= i < after.len() implies (#[trigger] after[i]).1.no_duplicates() by {
        assert(entries.contains(without_key(entries, table)[i]));
        let k = choose|k: int| 0 <= k < entries.len() && entries[k] == after[i];
        assert(entries[k].1.no_duplicates());
    }
}

/// The column to select once `column` has been hidden: the next visible
/// one, else the one before, else none.
pub open spec fn reselected(order: Seq<Name>, hidden: Seq<Name>, column: Name) -> Option<Name> {
    match next_visible(order, hidden, column) {
        Some(name) => Some(name),
        None => prev_visible(order, hidden, column),
    }
}

impl StateModel {
    /// The column that a toggle of visibility is about: in the inspect mode
    /// the column on the selected row of the column list, else the
    /// selected column. Without a selected table there is none.
    pub open spec fn visibility_target(self) -> Option<Name> {
        if self.selected_table is None {
            None
        } else if self.inspect_mode {
            if self.inspect_selected_row < self.virtual_order().len() {
                Some(self.virtual_order()[self.inspect_selected_row as int])
            } else {
                None
            }
        } else {
            self.selected_column
        }
    }

    /// The state after a toggle of the visibility of its target. Where
    /// that hides the selected column, the selection goes to a visible
    /// neighbour.
    pub open spec fn visibility_toggled(self) -> StateModel {
        match self.visibility_target() {
            Some(column) => {
                let toggled = StateModel {
                    hidden_columns: hidden_columns_toggled(
                        self.hidden_columns,
                        self.selected_table->0,
                        column,
                    ),
                    ..self
                };
                if !self.is_hidden(column) && self.selected_column == Some(column) {
                    StateModel {
                        selected_column: reselected(
                            toggled.virtual_order(),
                            toggled.hidden_names(),
                            column,
                        ),
                        ..toggled
                    }
                } else {
                    toggled
                }
            },
            None => self,
        }
    }

    /// The state with the column at `from` of the display order moved to
    /// `to`.
    pub open spec fn reordered(self, from: int, to: int) -> StateModel {
        StateModel {
            column_order: with_entry(
                self.column_order,
                self.selected_table->0,
                moved(self.virtual_order(), from, to),
            ),
            ..self
        }
    }

    /// The state with the selected column moved to the position `to` of
    /// the display order, where a table and one of its columns are
    /// selected.
    pub open spec fn selected_moved_to(self, to: int) -> StateModel {
        match self.selected_column_index() {
            Some(from) => if self.selected_table is Some {
                self.reordered(from, to)
            } else {
                self
            },
            None => self,
        }
    }

    /// The state after a cancelled modification: the display order of the
    /// selected table is the one kept from before.
    pub open spec fn modification_cancelled(self) -> StateModel {
        if self.is_modifying {
            StateModel {
                is_modifying: false,
                modify_backup_column_order: None,
                column_order: match (self.modify_backup_column_order, self.selected_table) {
                    (Some(backup), Some(table)) => with_entry(self.column_order, table, backup),
                    _ => self.column_order,
                },
                ..self
            }
        } else {
            self
        }
    }
}

/// Toggling a column leaves the hidden columns of the table as
/// `hidden_toggled` says, and those of every other table as they were.
pub proof fn lemma_hidden_columns_toggled(
    entries: Seq<(Name, Seq<Name>)>,
    table: Name,
    column: Name,
    other: Name,
)
    ensures
        hidden_list(hidden_columns_toggled(entries, table, column), table) == hidden_toggled(
            hidden_list(entries, table),
            column,
        ),
        other != table ==> hidden_list(hidden_columns_toggled(entries, table, column), other)
            == hidden_list(entries, other),
{
    let after = hidden_toggled(hidden_list(entries, table), column);
    lemma_lookup_with_entry(entries, table, after, other);
    lemma_lookup_without_key(entries, table, other);
    if after.len() == 0 {
        assert(after =~= Seq::<Name>::empty());
    }
}

/// A toggled column is hidden afterwards exactly when it was not before,
/// and no other column changes sides.
pub proof fn lemma_hidden_toggled(hidden: Seq<Name>, column: Name, other: Name)
    ensures
        hidden_toggled(hidden, column).contains(column) == !hidden.contains(column),
        other != column ==> hidden_toggled(hidden, column).contains(other) == hidden.contains(
            other,
        ),
{
    let keep = crate::names::is_not(column);
    let after = hidden_toggled(hidden, column);
    if hidden.contains(column) {
        if after.contains(column) {
            let i = choose|i: int| 0 <= i < after.len() && after[i] == column;
            hidden.lemma_filter_pred(keep, i);
        }
        if other != column {
            if hidden.contains(other) {
                let i = choose|i: int| 0 <= i < hidden.len() && hidden[i] == other;
                hidden.lemma_filter_contains(keep, i);
            }
            if after.contains(other) {
                hidden.lemma_filter_contains_rev(keep, other);
            }
        }
    } else {
        assert(after[hidden.len() as int] == column);
        if other != column {
            if hidden.contains(other) {
                let i = choose|i: int| 0 <= i < hidden.len() && hidden[i] == other;
                assert(after[i] == other);
            }
            if after.contains(other) {
                let i = choose|i: int| 0 <= i < after.len() && after[i] == other;
                assert(hidden[i] == other);
            }
        }
    }
}

/// Toggles `column` among the hidden columns of `table` and says whether
/// it was hidden before.
fn toggle_hidden_name(
    hidden_columns: &mut Vec<(String, Vec<String>)>,
    table: &str,
    column: &str,
) -> (was_hidden: bool)
    ensures
        was_hidden == hidden_list(old(hidden_columns).deep_view(), table@).contains(column@),
        final(hidden_columns).deep_view() == hidden_columns_toggled(
            old(hidden_columns).deep_view(),
            table@,
            column@,
        ),
        hidden_lists_are_sound(old(hidden_columns).deep_view()) ==> hidden_lists_are_sound(
            final(hidden_columns).deep_view(),
        ),
{
    proof {
        if hidden_lists_are_sound(hidden_columns.deep_view()) {
            lemma_toggle_keeps_hidden_lists_sound(hidden_columns.deep_view(), table@, column@);
        }
    }
    let mut names: Vec<String> = match find_key(hidden_columns, table) {
        Some(i) => {
            assert(hidden_columns.deep_view()[i as int].1 == hidden_columns[i as int].1.deep_view());
            clone_names(&hidden_columns[i].1)
        },
        None => {
            let empty: Vec<String> = Vec::new();
            assert(empty.deep_view() =~= Seq::<Name>::empty());
            empty
        },
    };
    let ghost before = names.deep_view();
    let was_hidden = contains_name(&names, column);
    if was_hidden {
        remove_name(&mut names, column);
    } else {
        names.push(column.to_owned());
        assert(names.deep_view() =~= before.push(column@));
    }
    if names.len() == 0 {
        drop_key(hidden_columns, table);
    } else {
        put_entry(hidden_columns, table.to_owned(), names);
    }
    was_hidden
}

/// Puts the display order `backup` back for `table`, where there are
/// both.
fn restore_order(
    column_order: &mut Vec<(String, Vec<String>)>,
    backup: &Option<Vec<String>>,
    table: &Option<String>,
)
    ensures
        final(column_order).deep_view() == match (backup.deep_view(), table.deep_view()) {
            (Some(order), Some(name)) => with_entry(old(column_order).deep_view(), name, order),
            _ => old(column_order).deep_view(),
        },
        keys_are_distinct(old(column_order).deep_view()) ==> keys_are_distinct(
            final(column_order).deep_view(),
        ),
{
    match (backup, table) {
        (Some(order), Some(name)) => {
            put_entry(column_order, name.clone(), clone_names(order));
        },
        _ => {},
    }
}

/// Whether `selected` is the column `column`.
fn is_selected(selected: &Option<String>, column: &str) -> (same: bool)
    ensures
        same == (selected.deep_view() == Some(column@)),
{
    match selected {
        Some(name) => same_text(name.as_str(), column),
        None => false,
    }
}

impl ApplicationState {
    /// The column that a toggle of visibility is about.
    fn visibility_target(&self) -> (target: Option<String>)
        ensures
            target.deep_view() == self@.visibility_target(),
    {
        proof {
            reveal(model_of);
        }
        if self.selected_table.is_none() {
            None
        } else if self.inspect_mode {
            self.get_column_name_by_index(self.inspect_selected_row)
        } else {
            match &self.selected_column {
                Some(name) => Some(name.clone()),
                None => None,
            }
        }
    }

    /// The column to select once `column` has been hidden.
    fn reselection(&self, column: &str) -> (name: Option<String>)
        ensures
            name.deep_view() == reselected(self@.virtual_order(), self@.hidden_names(), column@),
    {
        proof {
            reveal(model_of);
        }
        match self.get_next_visible_column(column) {
            Some(name) => Some(name),
            None => self.get_prev_visible_column(column),
        }
    }

    /// Hides the target column, or shows it where it is hidden. Where that
    /// hides the selected column, the selection goes to the next visible
    /// column, else to the one before, else to none. The display order
    /// stays as it is.
    pub fn toggle_column_visibility(&mut self)
        ensures
            final(self)@ == old(self)@.visibility_toggled(),
            final(self)@.virtual_order() == old(self)@.virtual_order(),
            final(self)@.original_column_names == old(self)@.original_column_names,
            old(self)@.order_is_permutation() ==> final(self)@.order_is_permutation(),
            old(self)@.visibility_target() is Some ==> final(self)@.hidden_names()
                == hidden_toggled(old(self)@.hidden_names(), old(self)@.visibility_target()->0),
            old(self)@.well_formed() ==> final(self)@.well_formed(),
    {
        proof {
            reveal(model_of);
        }
        let target = self.visibility_target();
        if let Some(column) = target {
            let was_selected = is_selected(&self.selected_column, column.as_str());
            let was_hidden = self.hide_or_show(column.as_str());
            if !was_hidden && was_selected {
                self.reselect_after_hiding(column.as_str());
            }
        }
    }

    /// Toggles `column` among the hidden columns of the selected table and
    /// says whether it was hidden before.
    fn hide_or_show(&mut self, column: &str) -> (was_hidden: bool)
        requires
            old(self)@.selected_table is Some,
        ensures
            was_hidden == old(self)@.is_hidden(column@),
            final(self)@ == (StateModel {
                hidden_columns: hidden_columns_toggled(
                    old(self)@.hidden_columns,
                    old(self)@.selected_table->0,
                    column@,
                ),
                ..old(self)@
            }),
            final(self)@.hidden_names() == hidden_toggled(old(self)@.hidden_names(), column@),
            old(self)@.well_formed() ==> final(self)@.well_formed(),
    {
        proof {
            reveal(model_of);
        }
        proof {
            let table = self@.selected_table->0;
            lemma_hidden_columns_toggled(self@.hidden_columns, table, column@, table);
        }
        match &self.selected_table {
            Some(table) => toggle_hidden_name(&mut self.hidden_columns, table.as_str(), column),
            None => false,
        }
    }

    /// Moves the selection from `column`, which was just hidden, to a
    /// visible neighbour.
    fn reselect_after_hiding(&mut self, column: &str)
        ensures
            final(self)@ == (StateModel {
                selected_column: reselected(
                    old(self)@.virtual_order(),
                    old(self)@.hidden_names(),
                    column@,
                ),
                ..old(self)@
            }),
    {
        proof {
            reveal(model_of);
        }
        let next = self.reselection(column);
        self.selected_column = next;
    }

    /// Enters the modify mode and keeps the display order to go back to.
    pub fn start_modifying(&mut self)
        ensures
            final(self)@ == if old(self)@.is_modifying {
                old(self)@
            } else {
                StateModel {
                    is_modifying: true,
                    modify_backup_column_order: Some(old(self)@.virtual_order()),
                    ..old(self)@
                }
            },
    {
        proof {
            reveal(model_of);
        }
        if !self.is_modifying {
            let backup = self.get_virtual_column_order();
            self.modify_backup_column_order = Some(backup);
            self.is_modifying = true;
        }
    }

    /// Leaves the modify mode and puts the display order back as it was
    /// on entering.
    pub fn cancel_modifying(&mut self)
        ensures
            final(self)@ == old(self)@.modification_cancelled(),
            old(self)@.well_formed() ==> final(self)@.well_formed(),
    {
        proof {
            reveal(model_of);
        }
        if self.is_modifying {
            restore_order(
                &mut self.column_order,
                &self.modify_backup_column_order,
                &self.selected_table,
            );
            self.is_modifying = false;
            self.modify_backup_column_order = None;
        }
    }

    /// Leaves the modify mode and keeps the changes.
    pub fn confirm_modifying(&mut self)
        ensures
            final(self)@ == if old(self)@.is_modifying {
                StateModel {
                    is_modifying: false,
                    modify_backup_column_order: None,
                    ..old(self)@
                }
            } else {
                old(self)@
            },
    {
        proof {
            reveal(model_of);
        }
        if self.is_modifying {
            self.is_modifying = false;
            self.modify_backup_column_order = None;
        }
    }

    /// Moves the selected column to the position `to_end` picks: the last
    /// of the display order, or the first.
    fn move_selected_column(&mut self, to_end: bool) -> (done: bool)
        ensures
            done == (old(self)@.selected_column_index() is Some && old(self)@.selected_table
                is Some),
            final(self)@ == old(self)@.selected_moved_to(
                if to_end {
                    old(self)@.virtual_order().len() - 1
                } else {
                    0
                },
            ),
            is_permutation(final(self)@.virtual_order(), old(self)@.virtual_order()),
            old(self)@.well_formed() ==> final(self)@.well_formed(),
    {
        proof {
            reveal(model_of);
        }
        proof {
            if let Some(name) = self@.selected_column {
                self@.virtual_order().index_of_first_ensures(name);
            }
        }
        match self.get_selected_column_index() {
            Some(from_index) => {
                let last = self.virtual_order_ref().len() - 1;
                self.reorder_column(
                    from_index,
                    if to_end {
                        last
                    } else {
                        0
                    },
                )
            },
            None => false,
        }
    }

    /// Moves the selected column to the front of the display order.
    pub fn move_column_extreme_left(&mut self) -> (done: bool)
        ensures
            done == (old(self)@.selected_column_index() is Some && old(self)@.selected_table
                is Some),
            final(self)@ == old(self)@.selected_moved_to(0),
            is_permutation(final(self)@.virtual_order(), old(self)@.virtual_order()),
            old(self)@.well_formed() ==> final(self)@.well_formed(),
    {
        proof {
            reveal(model_of);
        }
        self.move_selected_column(false)
    }

    /// Moves the selected column to the end of the display order.
    pub fn move_column_extreme_right(&mut self) -> (done: bool)
        ensures
            done == (old(self)@.selected_column_index() is Some && old(self)@.selected_table
                is Some),
            final(self)@ == old(self)@.selected_moved_to(old(self)@.virtual_order().len() - 1),
            is_permutation(final(self)@.virtual_order(), old(self)@.virtual_order()),
            old(self)@.well_formed() ==> final(self)@.well_formed(),
    {
        proof {
            reveal(model_of);
        }
        self.move_selected_column(true)
    }

    /// Moves the selected column to the top of the column list.
    pub fn move_column_extreme_up(&mut self) -> (done: bool)
        ensures
            done == (old(self)@.selected_column_index() is Some && old(self)@.selected_table
                is Some),
            final(self)@ == old(self)@.selected_moved_to(0),
            is_permutation(final(self)@.virtual_order(), old(self)@.virtual_order()),
            old(self)@.well_formed() ==> final(self)@.well_formed(),
    {
        proof {
            reveal(model_of);
        }
        self.move_selected_column(false)
    }

    /// Moves the selected column to the bottom of the column list.
    pub fn move_column_extreme_down(&mut self) -> (done: bool)
        ensures
            done == (old(self)@.selected_column_index() is Some && old(self)@.selected_table
                is Some),
            final(self)@ == old(self)@.selected_moved_to(old(self)@.virtual_order().len() - 1),
            is_permutation(final(self)@.virtual_order(), old(self)@.virtual_order()),
            old(self)@.well_formed() ==> final(self)@.well_formed(),
    {
        proof {
            reveal(model_of);
        }
        self.move_selected_column(true)
    }
}

} // verus!
