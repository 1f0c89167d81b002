//! The sort chain of the state, driven by the selected column.

use crate::sort::{
    chain_columns, chain_position, order_by_clause, render_order_by, toggle_in_chain,
    toggle_primary, toggled_in_chain, toggled_primary,
};
use crate::state::{ApplicationState, StateModel};
use crate::state::model_of;
use vstd::prelude::*;

verus! {

impl StateModel {
    /// The state without sort chain and without filters.
    pub open spec fn sort_and_filters_cleared(self) -> StateModel {
        StateModel { sort_columns: Seq::empty(), column_filters: Seq::empty(), ..self }
    }
}

impl ApplicationState {
    /// Sorts by the selected column alone, or clears the chain where it
    /// already begins with that column and direction. Without a selected
    /// column nothing happens.
    pub fn set_primary_sort(&mut self, ascending: bool)
        ensures
            final(self)@ == match old(self)@.selected_column {
                Some(column) => StateModel {
                    sort_columns: toggled_primary(old(self)@.sort_columns, column, ascending),
                    ..old(self)@
                },
                None => old(self)@,
            },
    {
        proof {
            reveal(model_of);
        }
        if let Some(column_name) = &self.selected_column {
            toggle_primary(&mut self.sort_columns, column_name.as_str(), ascending);
        }
    }

    /// Toggles the selected column in the chain. Without a selected column
    /// nothing happens.
    pub fn toggle_in_sort_chain(&mut self, ascending: bool)
        ensures
            final(self)@ == match old(self)@.selected_column {
                Some(column) => StateModel {
                    sort_columns: toggled_in_chain(old(self)@.sort_columns, column, ascending),
                    ..old(self)@
                },
                None => old(self)@,
            },
    {
        proof {
            reveal(model_of);
        }
        if let Some(column_name) = &self.selected_column {
            toggle_in_chain(&mut self.sort_columns, column_name.as_str(), ascending);
        }
    }

    /// Whether the chain sorts by `column_name`.
    pub fn is_column_in_sort_chain(&self, column_name: &str) -> (found: bool)
        ensures
            found == chain_columns(self@.sort_columns).contains(column_name@),
    {
        proof {
            reveal(model_of);
        }
        proof {
            chain_columns(self@.sort_columns).index_of_first_ensures(column_name@);
        }
        chain_position(&self.sort_columns, column_name).is_some()
    }

    /// Empties the sort chain and takes all filters off.
    pub fn clear_sort(&mut self)
        ensures
            final(self)@ == old(self)@.sort_and_filters_cleared(),
            old(self)@.well_formed() ==> final(self)@.well_formed(),
    {
        proof {
            crate::state::model::lemma_empty_lists_are_sound();
        }
        proof {
            reveal(model_of);
        }
        self.sort_columns = Vec::new();
        self.column_filters = Vec::new();
        assert(self.sort_columns.deep_view() =~= Seq::empty());
        assert(self.column_filters.deep_view() =~= Seq::empty());
    }

    /// The ORDER BY clause of the chain over the columns in `column_names`.
    pub fn get_sort_sql_clause(&self, column_names: &[String]) -> (clause: Option<String>)
        ensures
            clause.deep_view() == order_by_clause(self@.sort_columns, column_names.deep_view()),
    {
        proof {
            reveal(model_of);
        }
        render_order_by(&self.sort_columns, column_names)
    }
}

} // verus!
