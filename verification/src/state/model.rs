//! What the state means: the derived notions that contracts are stated in.

use crate::names::{lookup, Name};
use crate::names::{keys, keys_are_distinct};
use crate::state::StateModel;
use vstd::prelude::*;

verus! {

/// The names of `order` that are not in `hidden`, in the same order.
pub open spec fn visible(order: Seq<Name>, hidden: Seq<Name>) -> Seq<Name> {
    order.filter(|n: Name| !hidden.contains(n))
}

/// The first name of `order` that is not in `hidden`.
pub open spec fn first_visible(order: Seq<Name>, hidden: Seq<Name>) -> Option<Name>
    decreases order.len(),
{
    if order.len() == 0 {
        None
    } else if !hidden.contains(order[0]) {
        Some(order[0])
    } else {
        first_visible(order.drop_first(), hidden)
    }
}

/// The last name of `order` that is not in `hidden`.
pub open spec fn last_visible(order: Seq<Name>, hidden: Seq<Name>) -> Option<Name>
    decreases order.len(),
{
    if order.len() == 0 {
        None
    } else if !hidden.contains(order.last()) {
        Some(order.last())
    } else {
        last_visible(order.drop_last(), hidden)
    }
}

/// The first visible name behind the first occurrence of `current`.
pub open spec fn next_visible(order: Seq<Name>, hidden: Seq<Name>, current: Name) -> Option<Name> {
    match order.index_of_first(current) {
        Some(i) => first_visible(order.skip(i + 1), hidden),
        None => None,
    }
}

/// The last visible name before the first occurrence of `current`.
pub open spec fn prev_visible(order: Seq<Name>, hidden: Seq<Name>, current: Name) -> Option<Name> {
    match order.index_of_first(current) {
        Some(i) => last_visible(order.take(i), hidden),
        None => None,
    }
}

/// `order` with the name at `from` taken out and put back in at `to`.
pub open spec fn moved(order: Seq<Name>, from: int, to: int) -> Seq<Name> {
    order.remove(from).insert(to, order[from])
}

/// Two orders hold the same names the same number of times.
pub open spec fn is_permutation(a: Seq<Name>, b: Seq<Name>) -> bool {
    a.to_multiset() == b.to_multiset()
}

/// Each table has one list of hidden columns at most, and no list holds a
/// column twice.
#[verifier::opaque]
pub open spec fn hidden_lists_are_sound(entries: Seq<(Name, Seq<Name>)>) -> bool {
    &&& keys(entries).no_duplicates()
    &&& forall|i: int| 0 <= i < entries.len() ==> (#[trigger] entries[i]).1.no_duplicates()
}

/// Lists without entries are sound.
pub proof fn lemma_empty_lists_are_sound()
    ensures
        keys_are_distinct(Seq::<(Name, Seq<char>)>::empty()),
        keys_are_distinct(Seq::<(Name, Seq<Name>)>::empty()),
        hidden_lists_are_sound(Seq::empty()),
{
    reveal(keys_are_distinct);
    reveal(hidden_lists_are_sound);
    assert(keys(Seq::<(Name, Seq<char>)>::empty()) =~= Seq::empty());
    assert(keys(Seq::<(Name, Seq<Name>)>::empty()) =~= Seq::empty());
}

impl StateModel {
    /// What the state keeps by name, it keeps once: a column has one filter
    /// at most, a table one display order and one list of hidden columns,
    /// and no column is hidden twice. A fresh state is so, and every
    /// method that changes one of these lists keeps it so.
    pub open spec fn well_formed(self) -> bool {
        &&& keys_are_distinct(self.column_filters)
        &&& keys_are_distinct(self.column_order)
        &&& hidden_lists_are_sound(self.hidden_columns)
    }

    /// The display order of the columns: the order kept for the selected
    /// table, or the schema order where none is kept or no table is
    /// selected.
    pub open spec fn virtual_order(self) -> Seq<Name> {
        match self.selected_table {
            Some(table) => match lookup(self.column_order, table) {
                Some(order) => order,
                None => self.original_column_names,
            },
            None => self.original_column_names,
        }
    }

    /// The hidden columns of the selected table.
    pub open spec fn hidden_names(self) -> Seq<Name> {
        match self.selected_table {
            Some(table) => match lookup(self.hidden_columns, table) {
                Some(hidden) => hidden,
                None => Seq::empty(),
            },
            None => Seq::empty(),
        }
    }

    /// Whether the column `name` of the selected table is hidden.
    pub open spec fn is_hidden(self, name: Name) -> bool {
        self.hidden_names().contains(name)
    }

    /// The columns on display, in display order.
    pub open spec fn visible_column_names(self) -> Seq<Name> {
        visible(self.virtual_order(), self.hidden_names())
    }

    /// The position of the selected column in the display order.
    pub open spec fn selected_column_index(self) -> Option<int> {
        match self.selected_column {
            Some(name) => self.virtual_order().index_of_first(name),
            None => None,
        }
    }

    /// The display order holds the columns of the schema, each as often as
    /// the schema does.
    pub open spec fn order_is_permutation(self) -> bool {
        is_permutation(self.virtual_order(), self.original_column_names)
    }
}

/// Moving one name keeps the names.
pub proof fn lemma_moved_is_permutation(order: Seq<Name>, from: int, to: int)
    requires
        0 <= from < order.len(),
        0 <= to < order.len(),
    ensures
        is_permutation(moved(order, from, to), order),
        moved(order, from, to).len() == order.len(),
{
    vstd::seq_lib::to_multiset_remove(order, from);
    vstd::seq_lib::to_multiset_insert(order.remove(from), to, order[from]);
    vstd::seq_lib::to_multiset_contains(order, order[from]);
    assert(order.to_multiset().count(order[from]) > 0);
    assert(order.to_multiset().remove(order[from]).insert(order[from]) =~= order.to_multiset());
}

/// The first visible name is the first of the visible names, and the last
/// visible name their last.
pub proof fn lemma_first_and_last_visible(order: Seq<Name>, hidden: Seq<Name>)
    ensures
        first_visible(order, hidden) == if visible(order, hidden).len() > 0 {
            Some(visible(order, hidden).first())
        } else {
            None
        },
        last_visible(order, hidden) == if visible(order, hidden).len() > 0 {
            Some(visible(order, hidden).last())
        } else {
            None
        },
    decreases order.len(),
{
    let keep = |n: Name| !hidden.contains(n);
    reveal(Seq::filter);
    if order.len() > 0 {
        lemma_first_and_last_visible(order.drop_last(), hidden);
        lemma_first_and_last_visible(order.drop_first(), hidden);
        let head = seq![order[0]];
        assert(order =~= head + order.drop_first());
        Seq::filter_distributes_over_add(head, order.drop_first(), keep);
        let nothing = Seq::<Name>::empty();
        assert(head =~= nothing.push(order[0]));
        nothing.lemma_filter_push(order[0], keep);
        assert(nothing.filter(keep) =~= nothing);
        assert(head.filter(keep) =~= if keep(order[0]) {
            head
        } else {
            Seq::<Name>::empty()
        });
        if keep(order[0]) {
            assert(visible(order, hidden) =~= head + visible(order.drop_first(), hidden));
        } else {
            assert(visible(order, hidden) =~= visible(order.drop_first(), hidden));
        }
    }
}

} // verus!
