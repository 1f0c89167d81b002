//! The inspect mode: a list of the columns and a list of statistics, each
//! with its own scroll offset.

use crate::focus::InspectSection;
use crate::state::viewport::{step_forward, stepped_back, stepped_forward};
use crate::state::{ApplicationState, StateModel};
use crate::state::model_of;
use vstd::prelude::*;

verus! {

/// The state on entering or leaving the inspect mode: the schema section
/// is active and everything is at the top.
pub open spec fn inspect_reset(m: StateModel, inspect_mode: bool) -> StateModel {
    StateModel {
        inspect_mode,
        inspect_active_section: InspectSection::Schema,
        inspect_schema_scroll_y: 0,
        inspect_stats_scroll_y: 0,
        inspect_selected_row: 0,
        ..m
    }
}

/// The state with the scroll offset of the active section set to what
/// `step` makes of it.
pub open spec fn active_section_scrolled(m: StateModel, step: spec_fn(int) -> int) -> StateModel {
    match m.inspect_active_section {
        InspectSection::Schema => StateModel {
            inspect_schema_scroll_y: step(m.inspect_schema_scroll_y as int) as usize,
            ..m
        },
        InspectSection::Statistics => StateModel {
            inspect_stats_scroll_y: step(m.inspect_stats_scroll_y as int) as usize,
            ..m
        },
    }
}

/// One step back, down to zero.
pub(crate) fn step_back(scroll: usize) -> (offset: usize)
    ensures
        offset == stepped_back(scroll as int),
{
    if scroll > 0 {
        scroll - 1
    } else {
        0
    }
}

impl ApplicationState {
    /// Enters the inspect mode.
    pub fn enter_inspect_mode(&mut self)
        ensures
            final(self)@ == inspect_reset(old(self)@, true),
    {
        proof {
            reveal(model_of);
        }
        self.inspect_mode = true;
        self.inspect_active_section = InspectSection::Schema;
        self.inspect_schema_scroll_y = 0;
        self.inspect_stats_scroll_y = 0;
        self.inspect_selected_row = 0;
    }

    /// Leaves the inspect mode.
    pub fn exit_inspect_mode(&mut self)
        ensures
            final(self)@ == inspect_reset(old(self)@, false),
    {
        proof {
            reveal(model_of);
        }
        self.inspect_mode = false;
        self.inspect_active_section = InspectSection::Schema;
        self.inspect_schema_scroll_y = 0;
        self.inspect_stats_scroll_y = 0;
        self.inspect_selected_row = 0;
    }

    /// Makes the other section the active one.
    pub fn inspect_cycle_section(&mut self)
        ensures
            final(self)@ == (StateModel {
                inspect_active_section: match old(self)@.inspect_active_section {
                    InspectSection::Schema => InspectSection::Statistics,
                    InspectSection::Statistics => InspectSection::Schema,
                },
                ..old(self)@
            }),
    {
        proof {
            reveal(model_of);
        }
        self.inspect_active_section = match self.inspect_active_section {
            InspectSection::Schema => InspectSection::Statistics,
            InspectSection::Statistics => InspectSection::Schema,
        };
    }

    /// Scrolls the active section one row up.
    pub fn inspect_scroll_up(&mut self)
        ensures
            final(self)@ == active_section_scrolled(old(self)@, |s: int| stepped_back(s)),
    {
        proof {
            reveal(model_of);
        }
        let (schema, stats) = match self.inspect_active_section {
            InspectSection::Schema => (
                step_back(self.inspect_schema_scroll_y),
                self.inspect_stats_scroll_y,
            ),
            InspectSection::Statistics => (
                self.inspect_schema_scroll_y,
                step_back(self.inspect_stats_scroll_y),
            ),
        };
        self.inspect_schema_scroll_y = schema;
        self.inspect_stats_scroll_y = stats;
    }

    /// Scrolls the active section one row down while rows are left below
    /// the window.
    pub fn inspect_scroll_down(&mut self, max_rows: usize, visible_rows: usize)
        ensures
            final(self)@ == active_section_scrolled(
                old(self)@,
                |s: int| stepped_forward(s, max_rows as int, visible_rows as int),
            ),
    {
        proof {
            reveal(model_of);
        }
        let (schema, stats) = match self.inspect_active_section {
            InspectSection::Schema => (
                step_forward(self.inspect_schema_scroll_y, max_rows, visible_rows),
                self.inspect_stats_scroll_y,
            ),
            InspectSection::Statistics => (
                self.inspect_schema_scroll_y,
                step_forward(self.inspect_stats_scroll_y, max_rows, visible_rows),
            ),
        };
        self.inspect_schema_scroll_y = schema;
        self.inspect_stats_scroll_y = stats;
    }

    /// Moves the selection in the column list one row up and scrolls up
    /// with it where it leaves the window.
    pub fn inspect_move_selection_up(&mut self)
        ensures
            final(self)@ == if old(self)@.inspect_selected_row > 0 {
                StateModel {
                    inspect_selected_row: (old(self)@.inspect_selected_row - 1) as usize,
                    inspect_schema_scroll_y: if old(self)@.inspect_selected_row - 1 < old(
                        self
                    )@.inspect_schema_scroll_y {
                        (old(self)@.inspect_selected_row - 1) as usize
                    } else {
                        old(self)@.inspect_schema_scroll_y
                    },
                    ..old(self)@
                }
            } else {
                old(self)@
            },
    {
        proof {
            reveal(model_of);
        }
        if self.inspect_selected_row > 0 {
            let row = self.inspect_selected_row - 1;
            let scroll = if row < self.inspect_schema_scroll_y {
                row
            } else {
                self.inspect_schema_scroll_y
            };
            self.inspect_selected_row = row;
            self.inspect_schema_scroll_y = scroll;
        }
    }

    /// Moves the selection in the column list one row down, as long as a
    /// row is left among `max_rows`, and scrolls down with it where it
    /// leaves the window.
    pub fn inspect_move_selection_down(&mut self, max_rows: usize, visible_rows: usize)
        ensures
            final(self)@ == if old(self)@.inspect_selected_row + 1 < max_rows {
                StateModel {
                    inspect_selected_row: (old(self)@.inspect_selected_row + 1) as usize,
                    inspect_schema_scroll_y: if old(self)@.inspect_selected_row + 1 >= old(
                        self
                    )@.inspect_schema_scroll_y + visible_rows {
                        (old(self)@.inspect_selected_row + 1 - visible_rows + 1) as usize
                    } else {
                        old(self)@.inspect_schema_scroll_y
                    },
                    ..old(self)@
                }
            } else {
                old(self)@
            },
    {
        proof {
            reveal(model_of);
        }
        if max_rows > 0 && self.inspect_selected_row < max_rows - 1 {
            let row = self.inspect_selected_row + 1;
            let scroll = if row >= self.inspect_schema_scroll_y && row
                - self.inspect_schema_scroll_y >= visible_rows {
                row - visible_rows + 1
            } else {
                self.inspect_schema_scroll_y
            };
            self.inspect_selected_row = row;
            self.inspect_schema_scroll_y = scroll;
        }
    }
}

} // verus!
