//! New table data, the column selection and the jumps to the edges.

use crate::focus::InspectSection;
use crate::names::position_of;
use crate::query::{QueryResult, QueryResultModel};
use crate::state::model::{first_visible, last_visible, prev_visible, next_visible};
use crate::state::{ApplicationState, StateModel};
use crate::state::model_of;
use vstd::prelude::*;

verus! {

/// Rows that a jump in the inspect mode scrolls by.
pub const INSPECT_PAGE_ROWS: usize = 10;

/// Rows that the inspect mode is taken to hold where the number is not at
/// hand.
pub const INSPECT_ASSUMED_ROWS: usize = 20;

/// Columns that a jump to the last column leaves in view.
pub const ASSUMED_VISIBLE_COLUMNS: usize = 5;

/// Rows that a jump to the last row leaves in view.
pub const ASSUMED_VISIBLE_ROWS: usize = 10;

impl StateModel {
    /// The position of the selected column among the visible columns.
    pub open spec fn visible_index(self) -> Option<int> {
        match self.selected_column {
            Some(name) => self.visible_column_names().index_of_first(name),
            None => None,
        }
    }

    /// The state scrolled to the left as far as it takes to bring the
    /// selected column in from beyond the left edge.
    pub open spec fn column_shown(self) -> StateModel {
        match self.visible_index() {
            Some(i) => if i < self.scroll_x {
                StateModel { scroll_x: i as usize, ..self }
            } else {
                self
            },
            None => self,
        }
    }

    /// The state after new data for a changed sort or filter: back at the
    /// first row, with the column selection kept.
    pub open spec fn with_rows_replaced(self, data: QueryResultModel) -> StateModel {
        (StateModel { table_data: Some(data), scroll_y: 0, selected_row: 0, ..self }).column_shown()
    }

    /// The state after new data for a changed column layout: rows and
    /// column selection stay where they are.
    pub open spec fn with_layout_replaced(self, data: QueryResultModel) -> StateModel {
        (StateModel { table_data: Some(data), ..self }).column_shown()
    }

    /// The state with the selection moved to the visible column on the
    /// left, or set to the first visible column where there was none.
    pub open spec fn selection_moved_left(self) -> StateModel {
        match self.selected_column {
            Some(current) => match prev_visible(
                self.virtual_order(),
                self.hidden_names(),
                current,
            ) {
                Some(name) => (StateModel { selected_column: Some(name), ..self }).column_shown(),
                None => self,
            },
            None => StateModel {
                selected_column: first_visible(self.virtual_order(), self.hidden_names()),
                ..self
            },
        }
    }

    /// The state with the selection moved to the visible column on the
    /// right, or set to the first visible column where there was none.
    pub open spec fn selection_moved_right(self) -> StateModel {
        match self.selected_column {
            Some(current) => match next_visible(
                self.virtual_order(),
                self.hidden_names(),
                current,
            ) {
                Some(name) => (StateModel { selected_column: Some(name), ..self }).column_shown(),
                None => self,
            },
            None => StateModel {
                selected_column: first_visible(self.virtual_order(), self.hidden_names()),
                ..self
            },
        }
    }

    /// The state after a jump to the top.
    pub open spec fn jumped_up(self) -> StateModel {
        if self.is_modifying {
            self
        } else if self.inspect_mode {
            match self.inspect_active_section {
                InspectSection::Schema => StateModel {
                    inspect_selected_row: 0,
                    inspect_schema_scroll_y: 0,
                    ..self
                },
                InspectSection::Statistics => StateModel { inspect_stats_scroll_y: 0, ..self },
            }
        } else {
            StateModel { selected_row: 0, scroll_y: 0, ..self }
        }
    }

    /// The state after a jump to the bottom.
    pub open spec fn jumped_down(self) -> StateModel {
        if self.is_modifying {
            self
        } else if self.inspect_mode {
            match self.inspect_active_section {
                InspectSection::Schema => match self.table_data {
                    Some(data) => if data.columns.len() > 0 {
                        StateModel {
                            inspect_selected_row: (data.columns.len() - 1) as usize,
                            inspect_schema_scroll_y: bottom_offset(
                                data.columns.len(),
                                self.inspect_schema_scroll_y,
                            ),
                            ..self
                        }
                    } else {
                        self
                    },
                    None => self,
                },
                InspectSection::Statistics => StateModel {
                    inspect_stats_scroll_y: (INSPECT_ASSUMED_ROWS - INSPECT_PAGE_ROWS) as usize,
                    ..self
                },
            }
        } else {
            match self.table_data {
                Some(data) => if data.rows.len() > 0 {
                    StateModel {
                        selected_row: (data.rows.len() - 1) as usize,
                        scroll_y: bottom_offset(data.rows.len(), self.scroll_y),
                        ..self
                    }
                } else {
                    self
                },
                None => self,
            }
        }
    }

    /// The state after a jump to the left edge.
    pub open spec fn jumped_left(self) -> StateModel {
        if self.is_modifying {
            self
        } else if self.inspect_mode {
            match self.inspect_active_section {
                InspectSection::Schema => StateModel {
                    inspect_schema_scroll_y: back_by_page(self.inspect_schema_scroll_y),
                    ..self
                },
                InspectSection::Statistics => StateModel {
                    inspect_stats_scroll_y: back_by_page(self.inspect_stats_scroll_y),
                    ..self
                },
            }
        } else {
            StateModel {
                scroll_x: 0,
                selected_column: match self.table_data {
                    Some(data) => if data.columns.len() > 0 {
                        Some(data.columns[0])
                    } else {
                        None
                    },
                    None => self.selected_column,
                },
                ..self
            }
        }
    }

    /// The state after a jump to the right edge.
    pub open spec fn jumped_right(self) -> StateModel {
        if self.is_modifying {
            self
        } else if self.inspect_mode {
            match self.inspect_active_section {
                InspectSection::Schema => StateModel {
                    inspect_schema_scroll_y: forward_by_page(self.inspect_schema_scroll_y),
                    ..self
                },
                InspectSection::Statistics => StateModel {
                    inspect_stats_scroll_y: forward_by_page(self.inspect_stats_scroll_y),
                    ..self
                },
            }
        } else {
            StateModel {
                selected_column: last_visible(self.virtual_order(), self.hidden_names()),
                scroll_x: if self.virtual_order().len() > ASSUMED_VISIBLE_COLUMNS {
                    (self.virtual_order().len() - ASSUMED_VISIBLE_COLUMNS) as usize
                } else {
                    self.scroll_x
                },
                ..self
            }
        }
    }
}

/// The offset that shows the last of `total` lines in a window of the
/// assumed height; `scroll` where everything fits.
pub open spec fn bottom_offset(total: nat, scroll: usize) -> usize {
    if total > ASSUMED_VISIBLE_ROWS {
        (total - ASSUMED_VISIBLE_ROWS) as usize
    } else {
        scroll
    }
}

/// A page of the inspect mode further up, down to zero.
pub open spec fn back_by_page(scroll: usize) -> usize {
    if scroll >= INSPECT_PAGE_ROWS {
        (scroll - INSPECT_PAGE_ROWS) as usize
    } else {
        0
    }
}

/// As far down as a page of the inspect mode goes within the rows that
/// the mode is taken to hold.
pub open spec fn forward_by_page(scroll: usize) -> usize {
    if scroll < INSPECT_ASSUMED_ROWS - INSPECT_PAGE_ROWS {
        (INSPECT_ASSUMED_ROWS - INSPECT_PAGE_ROWS) as usize
    } else {
        scroll
    }
}

fn bottom_offset_of(total: usize, scroll: usize) -> (offset: usize)
    ensures
        offset == bottom_offset(total as nat, scroll),
{
    if total > ASSUMED_VISIBLE_ROWS {
        total - ASSUMED_VISIBLE_ROWS
    } else {
        scroll
    }
}

impl ApplicationState {
    /// Takes new data and goes back to the first row and column, with no
    /// column selected.
    pub fn set_table_data(&mut self, data: QueryResult)
        ensures
            final(self)@ == (StateModel {
                table_data: Some(data.deep_view()),
                scroll_x: 0,
                scroll_y: 0,
                selected_row: 0,
                selected_column: None,
                ..old(self)@
            }),
    {
        proof {
            reveal(model_of);
        }
        self.table_data = Some(data);
        self.scroll_x = 0;
        self.scroll_y = 0;
        self.selected_row = 0;
        self.selected_column = None;
    }

    /// Takes new data after a change of sort or filter. The rows start
    /// again at the top; the selected column stays, and so does the
    /// horizontal scroll unless the selected column lies to its left.
    pub fn update_table_data_preserve_column(&mut self, data: QueryResult)
        ensures
            final(self)@ == old(self)@.with_rows_replaced(data.deep_view()),
            final(self)@.selected_row == 0,
            final(self)@.scroll_y == 0,
            final(self)@.selected_column == old(self)@.selected_column,
            final(self)@.scroll_x <= old(self)@.scroll_x,
    {
        proof {
            reveal(model_of);
        }
        self.table_data = Some(data);
        self.scroll_y = 0;
        self.selected_row = 0;
        self.ensure_selected_column_visible();
    }

    /// Takes new data after a change of the column layout alone. The row
    /// selection and the vertical scroll stay, the selected column stays,
    /// and so does the horizontal scroll unless the selected column lies to
    /// its left.
    pub fn update_table_data_preserve_position(&mut self, data: QueryResult)
        ensures
            final(self)@ == old(self)@.with_layout_replaced(data.deep_view()),
            final(self)@.selected_row == old(self)@.selected_row,
            final(self)@.scroll_y == old(self)@.scroll_y,
            final(self)@.selected_column == old(self)@.selected_column,
            final(self)@.scroll_x <= old(self)@.scroll_x,
    {
        proof {
            reveal(model_of);
        }
        self.table_data = Some(data);
        self.ensure_selected_column_visible();
    }

    /// The position of the selected column among the visible columns.
    pub fn get_selected_visible_index(&self) -> (index: Option<usize>)
        ensures
            match index {
                Some(i) => self@.visible_index() == Some(i as int),
                None => self@.visible_index() is None,
            },
    {
        proof {
            reveal(model_of);
        }
        match &self.selected_column {
            Some(name) => {
                let visible = self.get_visible_column_names();
                position_of(&visible, name.as_str())
            },
            None => None,
        }
    }

    /// Scrolls to the left as far as it takes to bring the selected column
    /// in from beyond the left edge.
    pub fn ensure_selected_column_visible(&mut self)
        ensures
            final(self)@ == old(self)@.column_shown(),
            final(self)@.scroll_x <= old(self)@.scroll_x,
            final(self)@.selected_column == old(self)@.selected_column,
    {
        proof {
            reveal(model_of);
        }
        let scroll_x = match self.get_selected_visible_index() {
            Some(i) => if i < self.scroll_x {
                i
            } else {
                self.scroll_x
            },
            None => self.scroll_x,
        };
        self.scroll_x = scroll_x;
    }

    /// Moves the selection to the visible column on the left; hidden
    /// columns are passed over.
    pub fn move_selected_left(&mut self)
        ensures
            final(self)@ == old(self)@.selection_moved_left(),
    {
        proof {
            reveal(model_of);
        }
        let target = match &self.selected_column {
            Some(current) => self.get_prev_visible_column(current.as_str()),
            None => None,
        };
        if self.selected_column.is_some() {
            if target.is_some() {
                self.selected_column = target;
                self.ensure_selected_column_visible();
            }
        } else {
            self.selected_column = self.get_first_visible_column();
        }
    }

    /// Moves the selection to the visible column on the right; hidden
    /// columns are passed over.
    pub fn move_selected_right(&mut self, _max_cols: usize, _visible_cols: usize)
        ensures
            final(self)@ == old(self)@.selection_moved_right(),
    {
        proof {
            reveal(model_of);
        }
        let target = match &self.selected_column {
            Some(current) => self.get_next_visible_column(current.as_str()),
            None => None,
        };
        if self.selected_column.is_some() {
            if target.is_some() {
                self.selected_column = target;
                self.ensure_selected_column_visible();
            }
        } else {
            self.selected_column = self.get_first_visible_column();
        }
    }

    /// Jumps to the first row, or to the top of the active inspect
    /// section. Nothing happens in modify mode.
    pub fn navigate_extreme_up(&mut self)
        ensures
            final(self)@ == old(self)@.jumped_up(),
    {
        proof {
            reveal(model_of);
        }
        if self.is_modifying {
            return ;
        }
        if self.inspect_mode {
            match self.inspect_active_section {
                InspectSection::Schema => {
                    self.inspect_selected_row = 0;
                    self.inspect_schema_scroll_y = 0;
                },
                InspectSection::Statistics => {
                    self.inspect_stats_scroll_y = 0;
                },
            }
        } else {
            self.selected_row = 0;
            self.scroll_y = 0;
        }
    }

    /// Jumps to the last row, or to the bottom of the active inspect
    /// section. Nothing happens in modify mode.
    pub fn navigate_extreme_down(&mut self)
        ensures
            final(self)@ == old(self)@.jumped_down(),
    {
        proof {
            reveal(model_of);
        }
        if self.is_modifying {
            return ;
        }
        let (columns, rows) = match &self.table_data {
            Some(data) => (data.columns.len(), data.rows.len()),
            None => (0, 0),
        };
        if self.inspect_mode {
            match self.inspect_active_section {
                InspectSection::Schema => {
                    if columns > 0 {
                        let scroll = bottom_offset_of(columns, self.inspect_schema_scroll_y);
                        self.inspect_selected_row = columns - 1;
                        self.inspect_schema_scroll_y = scroll;
                    }
                },
                InspectSection::Statistics => {
                    self.inspect_stats_scroll_y = INSPECT_ASSUMED_ROWS - INSPECT_PAGE_ROWS;
                },
            }
        } else if rows > 0 {
            let scroll = bottom_offset_of(rows, self.scroll_y);
            self.selected_row = rows - 1;
            self.scroll_y = scroll;
        }
    }

    /// Jumps to the first column, or a page up in the inspect mode.
    /// Nothing happens in modify mode.
    pub fn navigate_extreme_left(&mut self)
        ensures
            final(self)@ == old(self)@.jumped_left(),
    {
        proof {
            reveal(model_of);
        }
        if self.is_modifying {
            return ;
        }
        if self.inspect_mode {
            let mut i: usize = 0;
            while i < INSPECT_PAGE_ROWS
                invariant
                    i <= INSPECT_PAGE_ROWS,
                    !self@.is_modifying,
                    self@.inspect_mode,
                    self@ == (StateModel {
                        inspect_schema_scroll_y: self@.inspect_schema_scroll_y,
                        inspect_stats_scroll_y: self@.inspect_stats_scroll_y,
                        ..old(self)@
                    }),
                    match self@.inspect_active_section {
                        InspectSection::Schema => self@.inspect_stats_scroll_y == old(
                            self
                        )@.inspect_stats_scroll_y && self@.inspect_schema_scroll_y as int == (
                        if old(self)@.inspect_schema_scroll_y >= i {
                            old(self)@.inspect_schema_scroll_y - i
                        } else {
                            0
                        }),
                        InspectSection::Statistics => self@.inspect_schema_scroll_y == old(
                            self
                        )@.inspect_schema_scroll_y && self@.inspect_stats_scroll_y as int == (
                        if old(self)@.inspect_stats_scroll_y >= i {
                            old(self)@.inspect_stats_scroll_y - i
                        } else {
                            0
                        }),
                    },
                decreases INSPECT_PAGE_ROWS - i,
            {
                proof {
                    reveal(model_of);
                }
                self.inspect_scroll_up();
                i += 1;
            }
        } else {
            let first = match &self.table_data {
                Some(data) => if data.columns.len() > 0 {
                    Some(data.columns[0].clone())
                } else {
                    None
                },
                None => match &self.selected_column {
                    Some(name) => Some(name.clone()),
                    None => None,
                },
            };
            self.scroll_x = 0;
            self.selected_column = first;
        }
    }

    /// Jumps to the last visible column, or a page down in the inspect
    /// mode. Nothing happens in modify mode.
    pub fn navigate_extreme_right(&mut self)
        ensures
            final(self)@ == old(self)@.jumped_right(),
    {
        proof {
            reveal(model_of);
        }
        if self.is_modifying {
            return ;
        }
        if self.inspect_mode {
            let mut i: usize = 0;
            while i < INSPECT_PAGE_ROWS
                invariant
                    i <= INSPECT_PAGE_ROWS,
                    !self@.is_modifying,
                    self@.inspect_mode,
                    self@ == (StateModel {
                        inspect_schema_scroll_y: self@.inspect_schema_scroll_y,
                        inspect_stats_scroll_y: self@.inspect_stats_scroll_y,
                        ..old(self)@
                    }),
                    match self@.inspect_active_section {
                        InspectSection::Schema => self@.inspect_stats_scroll_y == old(
                            self
                        )@.inspect_stats_scroll_y && self@.inspect_schema_scroll_y as int == (
                        if old(self)@.inspect_schema_scroll_y + i < INSPECT_ASSUMED_ROWS
                            - INSPECT_PAGE_ROWS {
                            old(self)@.inspect_schema_scroll_y + i
                        } else {
                            forward_by_page(old(self)@.inspect_schema_scroll_y) as int
                        }),
                        InspectSection::Statistics => self@.inspect_schema_scroll_y == old(
                            self
                        )@.inspect_schema_scroll_y && self@.inspect_stats_scroll_y as int == (
                        if old(self)@.inspect_stats_scroll_y + i < INSPECT_ASSUMED_ROWS
                            - INSPECT_PAGE_ROWS {
                            old(self)@.inspect_stats_scroll_y + i
                        } else {
                            forward_by_page(old(self)@.inspect_stats_scroll_y) as int
                        }),
                    },
                decreases INSPECT_PAGE_ROWS - i,
            {
                proof {
                    reveal(model_of);
                }
                self.inspect_scroll_down(INSPECT_ASSUMED_ROWS, INSPECT_PAGE_ROWS);
                i += 1;
            }
        } else {
            let last = self.get_last_visible_column();
            let total_cols = self.virtual_order_ref().len();
            let scroll_x = if total_cols > ASSUMED_VISIBLE_COLUMNS {
                total_cols - ASSUMED_VISIBLE_COLUMNS
            } else {
                self.scroll_x
            };
            self.selected_column = last;
            self.scroll_x = scroll_x;
        }
    }
}

} // verus!
