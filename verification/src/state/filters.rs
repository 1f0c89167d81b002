//! The filter input and the filters that were committed, one for each
//! column at most.

use crate::clock::{elapsed_millis, now, span_is_over};
use crate::names::{
    drop_key, find_key, keys, position_of, put_entry, with_entry, without_key, Name,
};
use crate::state::basics::without_last;
use crate::state::{ApplicationState, StateModel};
use crate::strings::{joined, pop_char, push_char, trim_text, trimmed};
use crate::state::model_of;
use vstd::prelude::*;
use vstd::string::*;

verus! {

/// Milliseconds without a key press after which a filter that is being
/// typed is tried out.
pub const SEARCH_DEBOUNCE_MS: u64 = 600;

/// The state with the filter input closed.
pub open spec fn search_closed(m: StateModel) -> StateModel {
    StateModel {
        is_searching: false,
        search_column: None,
        search_text: Seq::empty(),
        search_syntax_valid: true,
        search_debounce_timer: None,
        ..m
    }
}

/// One condition of a WHERE clause: the column, a space, the filter text
/// as it was typed.
pub open spec fn filter_term(filter: (Name, Seq<char>)) -> Seq<char> {
    filter.0 + seq![' '] + filter.1
}

/// The WHERE clause of a list of filters: their conditions in order,
/// joined by AND; no clause where there is no filter.
pub open spec fn where_clause(filters: Seq<(Name, Seq<char>)>) -> Option<Seq<char>> {
    if filters.len() == 0 {
        None
    } else {
        Some(
            "WHERE "@ + joined(
                filters.map_values(|f: (Name, Seq<char>)| filter_term(f)),
                " AND "@,
            ),
        )
    }
}

/// Whether the text in the filter input can be committed: the input is
/// open, the text was found valid and is not blank, and the column it is
/// for exists.
pub open spec fn search_can_commit(m: StateModel) -> bool {
    &&& m.is_searching
    &&& m.search_syntax_valid
    &&& trimmed(m.search_text).len() > 0
    &&& m.search_column is Some
    &&& m.search_column->0 < m.virtual_order().len()
}

/// Writes the WHERE clause of `filters`.
pub fn render_where(filters: &Vec<(String, String)>) -> (clause: Option<String>)
    ensures
        clause.deep_view() == where_clause(filters.deep_view()),
{
    if filters.len() == 0 {
        return None;
    }
    let ghost term = |f: (Name, Seq<char>)| filter_term(f);
    let mut clause = "WHERE ".to_owned();
    let mut i: usize = 0;
    while i < filters.len()
        invariant
            i <= filters.len(),
            term == |f: (Name, Seq<char>)| filter_term(f),
            clause@ == "WHERE "@ + joined(
                filters.deep_view().take(i as int).map_values(term),
                " AND "@,
            ),
        decreases filters.len() - i,
    {
        let ghost done = filters.deep_view().take(i as int).map_values(term);
        let ghost next = filters.deep_view().take(i + 1).map_values(term);
        if i > 0 {
            clause.append(" AND ");
        }
        clause.append(filters[i].0.as_str());
        clause.append(" ");
        clause.append(filters[i].1.as_str());
        proof {
            reveal_strlit(" ");
            assert(" "@ =~= seq![' ']);
            assert(next.drop_last() =~= done);
            assert(next.last() == filter_term(filters.deep_view()[i as int]));
            if i > 0 {
                assert(clause@ =~= "WHERE "@ + (joined(done, " AND "@) + " AND "@ + next.last()));
            } else {
                assert(clause@ =~= "WHERE "@ + next.last());
            }
        }
        i += 1;
    }
    assert(filters.deep_view().take(i as int) =~= filters.deep_view());
    Some(clause)
}

impl StateModel {
    /// The position among the visible columns of the column at
    /// `column_index` of the display order, where that column is shown.
    pub open spec fn visible_position_of(self, column_index: usize) -> Option<int> {
        if column_index < self.virtual_order().len() {
            self.visible_column_names().index_of_first(self.virtual_order()[column_index as int])
        } else {
            None
        }
    }

    /// The state with the filter input open for the column at
    /// `column_index` of the display order, and that column expanded where
    /// it is shown.
    pub open spec fn search_opened(self, column_index: usize) -> StateModel {
        StateModel {
            is_searching: true,
            search_column: Some(column_index),
            search_text: Seq::empty(),
            search_syntax_valid: true,
            search_debounce_timer: None,
            expanded_columns: match self.visible_position_of(column_index) {
                Some(position) => self.expanded_columns.insert(position as usize),
                None => self.expanded_columns,
            },
            ..self
        }
    }
}

impl ApplicationState {
    /// The position among the visible columns of the column at
    /// `column_index` of the display order.
    pub fn visible_position_of(&self, column_index: usize) -> (position: Option<usize>)
        ensures
            match position {
                Some(p) => self@.visible_position_of(column_index) == Some(p as int),
                None => self@.visible_position_of(column_index) is None,
            },
    {
        match self.get_column_name_by_index(column_index) {
            Some(name) => {
                let visible = self.get_visible_column_names();
                position_of(&visible, name.as_str())
            },
            None => None,
        }
    }

    /// Opens the filter input for the column at `column_index` of the
    /// display order and expands that column. Expansion goes by the place
    /// among the visible columns, so a hidden column is not expanded.
    pub fn start_column_search(&mut self, column_index: usize)
        ensures
            final(self)@ == old(self)@.search_opened(column_index),
    {
        let position = self.visible_position_of(column_index);
        proof {
            reveal(model_of);
        }
        self.is_searching = true;
        self.search_column = Some(column_index);
        self.search_text = String::new();
        self.search_syntax_valid = true;
        self.search_debounce_timer = None;
        if let Some(position) = position {
            crate::indices::insert_index(&mut self.expanded_columns, position);
        }
    }

    /// Closes the filter input and drops its text.
    pub fn cancel_search(&mut self)
        ensures
            final(self)@ == search_closed(old(self)@),
    {
        proof {
            reveal(model_of);
        }
        self.is_searching = false;
        self.search_column = None;
        self.search_text = String::new();
        self.search_syntax_valid = true;
        self.search_debounce_timer = None;
    }

    /// Adds a character to the filter text and starts the wait for a pause
    /// anew. Outside the filter input nothing happens.
    pub fn add_char_to_search(&mut self, c: char)
        ensures
            !old(self)@.is_searching ==> final(self)@ == old(self)@,
            old(self)@.is_searching ==> final(self)@ == (StateModel {
                search_text: old(self)@.search_text.push(c),
                search_debounce_timer: final(self)@.search_debounce_timer,
                ..old(self)@
            }) && final(self)@.search_debounce_timer is Some,
    {
        proof {
            reveal(model_of);
        }
        if self.is_searching {
            push_char(&mut self.search_text, c);
            self.search_debounce_timer = Some(now());
        }
    }

    /// Takes the last character off the filter text and starts the wait
    /// for a pause anew. Outside the filter input nothing happens.
    pub fn remove_char_from_search(&mut self)
        ensures
            !old(self)@.is_searching ==> final(self)@ == old(self)@,
            old(self)@.is_searching ==> final(self)@ == (StateModel {
                search_text: without_last(old(self)@.search_text),
                search_debounce_timer: final(self)@.search_debounce_timer,
                ..old(self)@
            }) && final(self)@.search_debounce_timer is Some,
    {
        proof {
            reveal(model_of);
        }
        if self.is_searching {
            pop_char(&mut self.search_text);
            self.search_debounce_timer = Some(now());
        }
    }

    /// Commits the filter text, trimmed, as the filter of the column that
    /// the input was opened for, and closes the input. Says whether it did.
    pub fn finalize_search(&mut self) -> (committed: bool)
        ensures
            committed == search_can_commit(old(self)@),
            final(self)@ == if search_can_commit(old(self)@) {
                search_closed(
                    StateModel {
                        column_filters: with_entry(
                            old(self)@.column_filters,
                            old(self)@.virtual_order()[old(self)@.search_column->0 as int],
                            trimmed(old(self)@.search_text),
                        ),
                        ..old(self)@
                    },
                )
            } else {
                old(self)@
            },
            old(self)@.well_formed() ==> final(self)@.well_formed(),
    {
        proof {
            reveal(model_of);
        }
        if !(self.is_searching && self.search_syntax_valid) {
            return false;
        }
        let text = trim_text(self.search_text.as_str());
        if text.as_str().unicode_len() == 0 {
            return false;
        }
        let name = match self.search_column {
            Some(column_index) => self.get_column_name_by_index(column_index),
            None => None,
        };
        match name {
            Some(column_name) => {
                put_entry(&mut self.column_filters, column_name, text);
                self.cancel_search();
                true
            },
            None => false,
        }
    }

    /// Records whether the engine takes the text in the filter input.
    pub fn set_search_syntax_valid(&mut self, valid: bool)
        ensures
            final(self)@ == (StateModel { search_syntax_valid: valid, ..old(self)@ }),
    {
        proof {
            reveal(model_of);
        }
        self.search_syntax_valid = valid;
    }

    /// Sets the filter of `column_name`, in the place of the one that the
    /// column has or behind the filters of the other columns.
    pub fn set_column_filter(&mut self, column_name: String, predicate_text: String)
        ensures
            final(self)@ == (StateModel {
                column_filters: with_entry(
                    old(self)@.column_filters,
                    column_name@,
                    predicate_text@,
                ),
                ..old(self)@
            }),
            old(self)@.well_formed() ==> final(self)@.well_formed(),
    {
        proof {
            reveal(model_of);
        }
        put_entry(&mut self.column_filters, column_name, predicate_text);
    }

    /// Whether a filter is set on `column_name`.
    pub fn is_column_filtered(&self, column_name: &str) -> (filtered: bool)
        ensures
            filtered == keys(self@.column_filters).contains(column_name@),
    {
        proof {
            reveal(model_of);
        }
        proof {
            keys(self@.column_filters).index_of_first_ensures(column_name@);
        }
        find_key(&self.column_filters, column_name).is_some()
    }

    /// Takes the filter off `column_name`.
    pub fn clear_column_filter(&mut self, column_name: &str)
        ensures
            final(self)@ == (StateModel {
                column_filters: without_key(old(self)@.column_filters, column_name@),
                ..old(self)@
            }),
            old(self)@.well_formed() ==> final(self)@.well_formed(),
    {
        proof {
            reveal(model_of);
        }
        drop_key(&mut self.column_filters, column_name);
    }

    /// Takes all filters off.
    pub fn clear_all_filters(&mut self)
        ensures
            final(self)@ == (StateModel { column_filters: Seq::empty(), ..old(self)@ }),
            old(self)@.well_formed() ==> final(self)@.well_formed(),
    {
        proof {
            crate::state::model::lemma_empty_lists_are_sound();
        }
        proof {
            reveal(model_of);
        }
        self.column_filters = Vec::new();
        assert(self.column_filters.deep_view() =~= Seq::empty());
    }

    /// The WHERE clause of the filters that are set. Filter texts go in as
    /// they were typed.
    pub fn get_filter_sql_clause(&self, _column_names: &[String]) -> (clause: Option<String>)
        ensures
            clause.deep_view() == where_clause(self@.column_filters),
    {
        proof {
            reveal(model_of);
        }
        render_where(&self.column_filters)
    }

    /// Whether the filter that is being typed is due to be tried out,
    /// given the milliseconds since the last key press.
    pub fn should_debounce_update_after(&self, elapsed_ms: u128) -> (due: bool)
        ensures
            due == (self@.search_debounce_timer is Some && elapsed_ms >= SEARCH_DEBOUNCE_MS),
    {
        proof {
            reveal(model_of);
        }
        self.search_debounce_timer.is_some() && span_is_over(elapsed_ms, SEARCH_DEBOUNCE_MS)
    }

    /// Whether the filter that is being typed is due to be tried out by
    /// now. It never is while no key press is waited on.
    pub fn should_debounce_update(&self) -> (due: bool)
        ensures
            self@.search_debounce_timer is None ==> !due,
    {
        proof {
            reveal(model_of);
        }
        match &self.search_debounce_timer {
            Some(timer) => self.should_debounce_update_after(elapsed_millis(timer)),
            None => false,
        }
    }
}

} // verus!
