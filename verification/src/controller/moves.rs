//! The movement keys in the panels: up, down, left and right. In modify
//! mode they move the selected column; in inspect mode they scroll; else
//! they move within the panel that has the focus.

use crate::controller::{
    no_commands, App, AppModel, Catalog, CatalogModel, Command, CommandModel, Refresh,
};
use crate::focus::{InspectSection, NavigationPanel};
use crate::notify::NotificationType;
use crate::state::basics::notified;
use crate::state::focus::{focus_moved, left_panel_after};
use crate::state::inspect::active_section_scrolled;
use crate::state::viewport::{scrolled_to_show, stepped_back, stepped_forward};
use crate::state::{lemma_model_scalars, lemma_model_texts, ApplicationState, StateModel};
use crate::table::{inner_size, ASSUMED_TABLE_WIDTH, TABLE_CHROME_HEIGHT};
use vstd::prelude::*;

verus! {

/// Rows that a step to the side scrolls an inspect section by.
pub const INSPECT_STEP_ROWS: usize = 5;

/// The least number of rows that an inspect section is taken to show.
pub const MIN_INSPECT_ROWS: usize = 5;

/// Rows that the column list of the inspect mode is taken to hold.
pub const ASSUMED_SCHEMA_ROWS: usize = 20;

/// Rows that the statistics of the inspect mode are taken to hold.
pub const ASSUMED_STATISTICS_ROWS: usize = 50;

/// The rows that an inspect section shows: half the table area less its
/// frame, and a handful at least.
pub open spec fn inspect_visible_rows(area_height: u16) -> usize {
    let section = inner_size((area_height / 2) as u16, TABLE_CHROME_HEIGHT);
    if section >= MIN_INSPECT_ROWS {
        section as usize
    } else {
        MIN_INSPECT_ROWS
    }
}

/// The rows that an inspect section is taken to hold.
pub open spec fn inspect_assumed_rows(section: InspectSection) -> usize {
    match section {
        InspectSection::Schema => ASSUMED_SCHEMA_ROWS,
        InspectSection::Statistics => ASSUMED_STATISTICS_ROWS,
    }
}

/// The offset `count` steps further up, down to zero.
pub open spec fn stepped_back_by(scroll: int, count: int) -> int {
    if scroll >= count {
        scroll - count
    } else {
        0
    }
}

/// The offset `count` steps further down, as far as `window` lines from
/// there do not reach beyond the end at `max`.
pub open spec fn stepped_forward_by(scroll: int, max: int, window: int, count: int) -> int {
    if scroll + window >= max {
        scroll
    } else if scroll + count + window <= max {
        scroll + count
    } else {
        max - window
    }
}

impl StateModel {
    /// Whether keys move columns in the column list of the inspect mode.
    pub open spec fn modifies_in_inspect(self) -> bool {
        self.is_modifying && self.inspect_mode
    }

    /// Whether keys move columns in the table.
    pub open spec fn modifies_in_table(self) -> bool {
        self.is_modifying && self.active_panel == NavigationPanel::MainContent
            && !self.inspect_mode
    }

    /// The state with the column on the selected row of the column list
    /// moved to the row `target`, and the selection with it; the state as
    /// it is where that cannot be done.
    pub open spec fn inspect_row_moved(self, target: int) -> StateModel {
        if self.can_reorder(self.inspect_selected_row as int, target) {
            StateModel {
                inspect_selected_row: target as usize,
                ..self.reordered(self.inspect_selected_row as int, target)
            }
        } else {
            self
        }
    }

    /// Whether the column at `from` of the display order can be moved to
    /// `to`.
    pub open spec fn can_reorder(self, from: int, to: int) -> bool {
        &&& self.selected_table is Some
        &&& 0 <= from < self.virtual_order().len()
        &&& 0 <= to < self.virtual_order().len()
    }

    /// The command that fetches the table anew after a change of layout,
    /// where a database and a table are selected.
    pub open spec fn layout_fetch(self) -> Option<CommandModel> {
        match (self.selected_database, self.selected_table) {
            (Some(_), Some(table)) => Some(
                CommandModel::LoadColumns { table, purpose: Refresh::Layout },
            ),
            _ => None,
        }
    }
}

/// A fetch for `purpose` was started from the state `before`: the command
/// went out, or the state says that no table is selected.
pub open spec fn fetch_begun(
    before: StateModel,
    purpose: Refresh,
    after: StateModel,
    commands: Seq<CommandModel>,
) -> bool {
    match (before.selected_database, before.selected_table) {
        (Some(_), Some(table)) => after == before && commands == seq![
            CommandModel::LoadColumns { table, purpose },
        ],
        _ => commands.len() == 0 && notified(
            before,
            after,
            NotificationType::Error,
            "No table selected for data loading"@,
        ),
    }
}

/// What the up key does.
pub open spec fn vim_up_handled(
    before: AppModel,
    catalog: CatalogModel,
    after: AppModel,
    commands: Seq<CommandModel>,
) -> bool {
    let s = before.state;
    if s.modifies_in_inspect() {
        &&& after == (AppModel { state: after.state, ..before })
        &&& if s.inspect_active_section == InspectSection::Schema && s.inspect_selected_row > 0
            && s.can_reorder(s.inspect_selected_row as int, s.inspect_selected_row - 1) {
            fetch_begun(
                s.inspect_row_moved(s.inspect_selected_row - 1),
                Refresh::Layout,
                after.state,
                commands,
            )
        } else {
            after.state == s && commands.len() == 0
        }
    } else if s.inspect_mode {
        &&& commands.len() == 0
        &&& after == (AppModel {
            state: match s.inspect_active_section {
                InspectSection::Schema => StateModel {
                    inspect_selected_row: stepped_back(s.inspect_selected_row as int) as usize,
                    inspect_schema_scroll_y: if s.inspect_selected_row > 0 && s.inspect_selected_row
                        - 1 < s.inspect_schema_scroll_y {
                        (s.inspect_selected_row - 1) as usize
                    } else {
                        s.inspect_schema_scroll_y
                    },
                    ..s
                },
                InspectSection::Statistics => active_section_scrolled(
                    s,
                    |y: int| stepped_back(y),
                ),
            },
            ..before
        })
    } else {
        &&& commands.len() == 0
        &&& match s.active_panel {
            NavigationPanel::DatabaseList => after == (AppModel {
                state: s.dropdown_stepped(
                    catalog.databases.len(),
                    before.selected_db_index,
                    false,
                ),
                ..before
            }),
            NavigationPanel::TableList => after == (AppModel {
                selected_table_index: stepped_back(before.selected_table_index as int) as usize,
                ..before
            }),
            NavigationPanel::MainContent => after == (AppModel {
                state: if s.table_data is Some && s.selected_row > 0 {
                    StateModel {
                        selected_row: (s.selected_row - 1) as usize,
                        scroll_y: if s.selected_row - 1 < s.scroll_y {
                            (s.selected_row - 1) as usize
                        } else {
                            s.scroll_y
                        },
                        ..s
                    }
                } else {
                    s
                },
                ..before
            }),
            NavigationPanel::StatusBar => after == before,
        }
    }
}

impl StateModel {
    /// The state after a step in the database dropdown: a closed dropdown
    /// opens with the current database marked, an open one moves its mark
    /// down or up.
    pub open spec fn dropdown_stepped(self, databases: nat, current: usize, down: bool) -> StateModel {
        if !self.database_dropdown_expanded {
            StateModel {
                database_dropdown_expanded: true,
                dropdown_selected_index: current,
                ..self
            }
        } else if down {
            StateModel {
                dropdown_selected_index: if self.dropdown_selected_index + 1 < databases {
                    (self.dropdown_selected_index + 1) as usize
                } else {
                    self.dropdown_selected_index
                },
                ..self
            }
        } else {
            StateModel {
                dropdown_selected_index: stepped_back(self.dropdown_selected_index as int) as usize,
                ..self
            }
        }
    }
}

impl ApplicationState {
    /// Steps in the database dropdown.
    pub fn step_dropdown(&mut self, databases: usize, current: usize, down: bool)
        ensures
            final(self)@ == old(self)@.dropdown_stepped(databases as nat, current, down),
            old(self)@.well_formed() ==> final(self)@.well_formed(),
    {
        proof {
            lemma_model_scalars(self);
        }
        if !self.database_dropdown_expanded {
            self.expand_database_dropdown(databases);
            self.set_dropdown_to_current_database(current);
        } else if down {
            self.dropdown_move_down(databases);
        } else {
            self.dropdown_move_up();
        }
    }

    /// Moves the column on the selected row of the column list to the row
    /// `target` and the selection with it. Says whether it did.
    pub fn move_inspect_row(&mut self, target: usize) -> (done: bool)
        ensures
            done == old(self)@.can_reorder(old(self)@.inspect_selected_row as int, target as int),
            final(self)@ == old(self)@.inspect_row_moved(target as int),
            old(self)@.well_formed() ==> final(self)@.well_formed(),
    {
        proof {
            lemma_model_scalars(self);
        }
        let row = self.inspect_selected_row;
        if self.reorder_column(row, target) {
            self.set_inspect_selected_row(target);
            true
        } else {
            false
        }
    }

    /// Puts the selection of the column list on `row`.
    pub fn set_inspect_selected_row(&mut self, row: usize)
        ensures
            final(self)@ == (StateModel { inspect_selected_row: row, ..old(self)@ }),
            old(self)@.well_formed() ==> final(self)@.well_formed(),
    {
        proof {
            reveal(crate::state::model_of);
        }
        self.inspect_selected_row = row;
    }
}

impl App {
    /// The rows that an inspect section shows and is taken to hold.
    pub fn calculate_inspect_scroll_bounds(&self) -> (bounds: (usize, usize))
        ensures
            bounds.0 == inspect_assumed_rows(self@.state.inspect_active_section),
            bounds.1 == inspect_visible_rows(self@.state.last_table_area_height),
    {
        proof {
            lemma_model_scalars(&self.state);
        }
        let half = self.state.last_table_area_height / 2;
        let section = crate::table::inner(half, TABLE_CHROME_HEIGHT);
        let visible_rows = if section >= MIN_INSPECT_ROWS {
            section
        } else {
            MIN_INSPECT_ROWS
        };
        let max_rows = match self.state.inspect_active_section {
            InspectSection::Schema => ASSUMED_SCHEMA_ROWS,
            InspectSection::Statistics => ASSUMED_STATISTICS_ROWS,
        };
        (max_rows, visible_rows)
    }

    /// Moves the column on the selected row of the column list one row up
    /// and fetches the table anew.
    fn move_inspect_row_up(&mut self, catalog: &Catalog) -> (commands: Vec<Command>)
        requires
            old(self)@.state.modifies_in_inspect(),
        ensures
            vim_up_handled(old(self)@, catalog.deep_view(), final(self)@, commands.deep_view()),
            old(self)@.state.well_formed() ==> final(self)@.state.well_formed(),
    {
        proof {
            lemma_model_scalars(&self.state);
        }
        match self.state.inspect_active_section {
            InspectSection::Schema => {
                let row = self.state.inspect_selected_row;
                if row > 0 && self.state.move_inspect_row(row - 1) {
                    return self.begin_fetch(Refresh::Layout);
                }
                no_commands()
            },
            InspectSection::Statistics => no_commands(),
        }
    }

    /// Moves up in the inspect mode: the selection in the column list, or
    /// the statistics by a row.
    fn inspect_up(&mut self, catalog: &Catalog) -> (commands: Vec<Command>)
        requires
            old(self)@.state.inspect_mode,
            !old(self)@.state.modifies_in_inspect(),
        ensures
            vim_up_handled(old(self)@, catalog.deep_view(), final(self)@, commands.deep_view()),
            old(self)@.state.well_formed() ==> final(self)@.state.well_formed(),
    {
        proof {
            lemma_model_scalars(&self.state);
        }
        match self.state.inspect_active_section {
            InspectSection::Schema => self.state.inspect_move_selection_up(),
            InspectSection::Statistics => self.state.inspect_scroll_up(),
        }
        no_commands()
    }

    /// Moves up in the panel that has the focus.
    fn panel_up(&mut self, catalog: &Catalog) -> (commands: Vec<Command>)
        requires
            !old(self)@.state.inspect_mode,
        ensures
            vim_up_handled(old(self)@, catalog.deep_view(), final(self)@, commands.deep_view()),
            old(self)@.state.well_formed() ==> final(self)@.state.well_formed(),
    {
        proof {
            lemma_model_scalars(&self.state);
            lemma_model_texts(&self.state);
        }
        match self.state.active_panel {
            NavigationPanel::DatabaseList => {
                self.state.step_dropdown(catalog.databases.len(), self.selected_db_index, false);
            },
            NavigationPanel::TableList => {
                if self.selected_table_index > 0 {
                    self.selected_table_index -= 1;
                }
            },
            NavigationPanel::MainContent => {
                if self.state.table_data.is_some() {
                    self.state.move_selected_up();
                }
            },
            NavigationPanel::StatusBar => {},
        }
        no_commands()
    }

    /// Handles the up key.
    pub fn handle_vim_up(&mut self, catalog: &Catalog) -> (commands: Vec<Command>)
        ensures
            vim_up_handled(old(self)@, catalog.deep_view(), final(self)@, commands.deep_view()),
            old(self)@.state.well_formed() ==> final(self)@.state.well_formed(),
    {
        proof {
            lemma_model_scalars(&self.state);
        }
        if self.state.is_modifying && self.state.inspect_mode {
            self.move_inspect_row_up(catalog)
        } else if self.state.inspect_mode {
            self.inspect_up(catalog)
        } else {
            self.panel_up(catalog)
        }
    }
}


/// What the down key does.
pub open spec fn vim_down_handled(
    before: AppModel,
    catalog: CatalogModel,
    after: AppModel,
    commands: Seq<CommandModel>,
) -> bool {
    let s = before.state;
    if s.modifies_in_inspect() {
        &&& after == (AppModel { state: after.state, ..before })
        &&& if s.inspect_active_section == InspectSection::Schema && s.can_reorder(
            s.inspect_selected_row as int,
            s.inspect_selected_row + 1,
        ) {
            fetch_begun(
                s.inspect_row_moved(s.inspect_selected_row + 1),
                Refresh::Layout,
                after.state,
                commands,
            )
        } else {
            after.state == s && commands.len() == 0
        }
    } else if s.inspect_mode {
        &&& commands.len() == 0
        &&& after == (AppModel { state: s.inspect_stepped_down(), ..before })
    } else {
        &&& commands.len() == 0
        &&& match s.active_panel {
            NavigationPanel::DatabaseList => after == (AppModel {
                state: s.dropdown_stepped(
                    catalog.databases.len(),
                    before.selected_db_index,
                    true,
                ),
                ..before
            }),
            NavigationPanel::TableList => after == (AppModel {
                selected_table_index: if before.selected_table_index + 1 < catalog.tables.len() {
                    (before.selected_table_index + 1) as usize
                } else {
                    before.selected_table_index
                },
                ..before
            }),
            NavigationPanel::MainContent => after == (AppModel {
                state: s.row_stepped_down(),
                ..before
            }),
            NavigationPanel::StatusBar => after == before,
        }
    }
}

impl StateModel {
    /// The state after a step down in the inspect mode: the selection of
    /// the column list moves within the columns of the display order, or
    /// the statistics scroll by a row.
    pub open spec fn inspect_stepped_down(self) -> StateModel {
        let window = inspect_visible_rows(self.last_table_area_height);
        match self.inspect_active_section {
            InspectSection::Schema => if self.inspect_selected_row + 1
                < self.virtual_order().len() {
                StateModel {
                    inspect_selected_row: (self.inspect_selected_row + 1) as usize,
                    inspect_schema_scroll_y: if self.inspect_selected_row + 1
                        >= self.inspect_schema_scroll_y + window {
                        (self.inspect_selected_row + 1 - window + 1) as usize
                    } else {
                        self.inspect_schema_scroll_y
                    },
                    ..self
                }
            } else {
                self
            },
            InspectSection::Statistics => active_section_scrolled(
                self,
                |y: int| stepped_forward(y, ASSUMED_STATISTICS_ROWS as int, window as int),
            ),
        }
    }

    /// The state after a step down in the table: the selection moves to
    /// the next row of the data and the window follows it, as many rows
    /// high as the table area had room for at the last draw.
    pub open spec fn row_stepped_down(self) -> StateModel {
        match self.table_data {
            Some(data) => if self.selected_row + 1 < data.rows.len() {
                StateModel {
                    selected_row: (self.selected_row + 1) as usize,
                    scroll_y: scrolled_to_show(
                        self.scroll_y as int,
                        self.selected_row + 1,
                        self.visible_data_rows(
                            data,
                            ASSUMED_TABLE_WIDTH as nat,
                            inner_size(self.last_table_area_height, TABLE_CHROME_HEIGHT),
                        ) as int,
                    ) as usize,
                    ..self
                }
            } else {
                self
            },
            None => self,
        }
    }

    /// The state after a step to the side in the inspect mode: the active
    /// section scrolls by a few rows.
    pub open spec fn inspect_stepped_sideways(self, forward: bool) -> StateModel {
        let max = inspect_assumed_rows(self.inspect_active_section);
        let window = inspect_visible_rows(self.last_table_area_height);
        active_section_scrolled(
            self,
            |y: int|
                if forward {
                    stepped_forward_by(y, max as int, window as int, INSPECT_STEP_ROWS as int)
                } else {
                    stepped_back_by(y, INSPECT_STEP_ROWS as int)
                },
        )
    }
}

impl ApplicationState {
    /// Moves the row selection of the table one row down.
    pub fn step_row_down(&mut self)
        ensures
            final(self)@ == old(self)@.row_stepped_down(),
            old(self)@.well_formed() ==> final(self)@.well_formed(),
    {
        proof {
            lemma_model_scalars(self);
            lemma_model_texts(self);
        }
        let step = match &self.table_data {
            Some(data) => {
                let visible_rows = self.calculate_visible_data_rows_from_height(
                    self.last_table_area_height,
                    data,
                );
                Some((data.rows.len(), visible_rows))
            },
            None => None,
        };
        if let Some((rows, visible_rows)) = step {
            self.move_selected_down(rows, visible_rows);
        }
    }

    /// Scrolls the active inspect section `count` rows up.
    pub fn inspect_scroll_up_by(&mut self, count: usize)
        ensures
            final(self)@ == active_section_scrolled(
                old(self)@,
                |y: int| stepped_back_by(y, count as int),
            ),
            old(self)@.well_formed() ==> final(self)@.well_formed(),
    {
        let mut i: usize = 0;
        proof {
            lemma_model_scalars(self);
        }
        while i < count
            invariant
                i <= count,
                self@ == active_section_scrolled(old(self)@, |y: int| stepped_back_by(y, i as int)),
            decreases count - i,
        {
            proof {
                lemma_model_scalars(self);
            }
            self.inspect_scroll_up();
            i += 1;
        }
    }

    /// Scrolls the active inspect section `count` rows down, within
    /// `max_rows` rows of which `visible_rows` are in view.
    pub fn inspect_scroll_down_by(&mut self, max_rows: usize, visible_rows: usize, count: usize)
        ensures
            final(self)@ == active_section_scrolled(
                old(self)@,
                |y: int| stepped_forward_by(y, max_rows as int, visible_rows as int, count as int),
            ),
            old(self)@.well_formed() ==> final(self)@.well_formed(),
    {
        let mut i: usize = 0;
        proof {
            lemma_model_scalars(self);
        }
        while i < count
            invariant
                i <= count,
                self@ == active_section_scrolled(
                    old(self)@,
                    |y: int| stepped_forward_by(y, max_rows as int, visible_rows as int, i as int),
                ),
            decreases count - i,
        {
            proof {
                lemma_model_scalars(self);
            }
            self.inspect_scroll_down(max_rows, visible_rows);
            i += 1;
        }
    }
}

impl App {
    /// Moves the column on the selected row of the column list one row
    /// down and fetches the table anew.
    fn move_inspect_row_down(&mut self, catalog: &Catalog) -> (commands: Vec<Command>)
        requires
            old(self)@.state.modifies_in_inspect(),
        ensures
            vim_down_handled(old(self)@, catalog.deep_view(), final(self)@, commands.deep_view()),
            old(self)@.state.well_formed() ==> final(self)@.state.well_formed(),
    {
        proof {
            lemma_model_scalars(&self.state);
        }
        match self.state.inspect_active_section {
            InspectSection::Schema => {
                let row = self.state.inspect_selected_row;
                let total = self.state.virtual_order_ref().len();
                if row < total && row + 1 < total && self.state.move_inspect_row(row + 1) {
                    return self.begin_fetch(Refresh::Layout);
                }
                no_commands()
            },
            InspectSection::Statistics => no_commands(),
        }
    }

    /// Moves down in the inspect mode.
    fn inspect_down(&mut self, catalog: &Catalog) -> (commands: Vec<Command>)
        requires
            old(self)@.state.inspect_mode,
            !old(self)@.state.modifies_in_inspect(),
        ensures
            vim_down_handled(old(self)@, catalog.deep_view(), final(self)@, commands.deep_view()),
            old(self)@.state.well_formed() ==> final(self)@.state.well_formed(),
    {
        proof {
            lemma_model_scalars(&self.state);
        }
        let (max_rows, visible_rows) = self.calculate_inspect_scroll_bounds();
        match self.state.inspect_active_section {
            InspectSection::Schema => {
                let total_columns = self.state.virtual_order_ref().len();
                self.state.inspect_move_selection_down(total_columns, visible_rows);
            },
            InspectSection::Statistics => {
                self.state.inspect_scroll_down(max_rows, visible_rows);
            },
        }
        no_commands()
    }

    /// Moves down in the panel that has the focus.
    fn panel_down(&mut self, catalog: &Catalog) -> (commands: Vec<Command>)
        requires
            !old(self)@.state.inspect_mode,
        ensures
            vim_down_handled(old(self)@, catalog.deep_view(), final(self)@, commands.deep_view()),
            old(self)@.state.well_formed() ==> final(self)@.state.well_formed(),
    {
        proof {
            lemma_model_scalars(&self.state);
        }
        match self.state.active_panel {
            NavigationPanel::DatabaseList => {
                self.state.step_dropdown(catalog.databases.len(), self.selected_db_index, true);
            },
            NavigationPanel::TableList => {
                if catalog.tables.len() > 0 && self.selected_table_index < catalog.tables.len()
                    - 1 {
                    self.selected_table_index += 1;
                }
            },
            NavigationPanel::MainContent => {
                self.state.step_row_down();
            },
            NavigationPanel::StatusBar => {},
        }
        no_commands()
    }

    /// Handles the down key.
    pub fn handle_vim_down(&mut self, catalog: &Catalog) -> (commands: Vec<Command>)
        ensures
            vim_down_handled(old(self)@, catalog.deep_view(), final(self)@, commands.deep_view()),
            old(self)@.state.well_formed() ==> final(self)@.state.well_formed(),
    {
        proof {
            lemma_model_scalars(&self.state);
        }
        if self.state.is_modifying && self.state.inspect_mode {
            self.move_inspect_row_down(catalog)
        } else if self.state.inspect_mode {
            self.inspect_down(catalog)
        } else {
            self.panel_down(catalog)
        }
    }
}


/// What the left key does.
pub open spec fn vim_left_handled(before: AppModel, after: AppModel, commands: Seq<CommandModel>) -> bool {
    let s = before.state;
    &&& after == (AppModel { state: after.state, ..before })
    &&& if s.modifies_in_table() {
        match s.selected_column_index() {
            Some(i) => if i > 0 && s.selected_table is Some {
                fetch_begun(s.reordered(i, i - 1), Refresh::Layout, after.state, commands)
            } else {
                after.state == s && commands.len() == 0
            },
            None => after.state == s && commands.len() == 0,
        }
    } else if s.inspect_mode {
        after.state == s.inspect_stepped_sideways(false) && commands.len() == 0
    } else {
        &&& commands.len() == 0
        &&& match s.active_panel {
            NavigationPanel::MainContent => after.state == if s.table_data is Some {
                s.selection_moved_left()
            } else {
                s
            },
            NavigationPanel::TableList => side_panel_entered(
                s,
                after.state,
                NavigationPanel::DatabaseList,
                true,
            ),
            NavigationPanel::DatabaseList => side_panel_entered(
                s,
                after.state,
                NavigationPanel::TableList,
                true,
            ),
            NavigationPanel::StatusBar => after.state == s,
        }
    }
}

/// What the right key does.
pub open spec fn vim_right_handled(before: AppModel, after: AppModel, commands: Seq<CommandModel>) -> bool {
    let s = before.state;
    &&& after == (AppModel { state: after.state, ..before })
    &&& if s.modifies_in_table() {
        match s.selected_column_index() {
            Some(i) => if i + 1 < s.virtual_order().len() && s.selected_table is Some {
                fetch_begun(s.reordered(i, i + 1), Refresh::Layout, after.state, commands)
            } else {
                after.state == s && commands.len() == 0
            },
            None => after.state == s && commands.len() == 0,
        }
    } else if s.inspect_mode {
        after.state == s.inspect_stepped_sideways(true) && commands.len() == 0
    } else {
        &&& commands.len() == 0
        &&& match s.active_panel {
            NavigationPanel::MainContent => after.state == if s.table_data is Some {
                s.selection_moved_right()
            } else {
                s
            },
            NavigationPanel::DatabaseList => side_panel_entered(
                s,
                after.state,
                NavigationPanel::TableList,
                true,
            ),
            NavigationPanel::TableList => side_panel_entered(
                s,
                after.state,
                NavigationPanel::DatabaseList,
                false,
            ),
            NavigationPanel::StatusBar => after.state == s,
        }
    }
}

/// The focus went to the left-hand panel `target`, and the dropdown was
/// closed on the way where `collapse` says so.
pub open spec fn side_panel_entered(
    before: StateModel,
    after: StateModel,
    target: NavigationPanel,
    collapse: bool,
) -> bool {
    focus_moved(
        if collapse {
            StateModel { database_dropdown_expanded: false, ..before }
        } else {
            before
        },
        after,
        target,
        left_panel_after(target, before.last_left_panel),
    )
}

impl ApplicationState {
    /// Puts the focus on the left-hand panel `target`, closing the
    /// dropdown on the way where `collapse` says so.
    pub fn enter_side_panel(&mut self, target: NavigationPanel, collapse: bool)
        ensures
            side_panel_entered(old(self)@, final(self)@, target, collapse),
            old(self)@.well_formed() ==> final(self)@.well_formed(),
    {
        if collapse {
            self.collapse_database_dropdown();
        }
        self.set_left_panel(target);
    }

    /// Moves the selected column one place to the left or to the right in
    /// the display order. Says whether it did.
    pub fn nudge_selected_column(&mut self, forward: bool) -> (done: bool)
        ensures
            done == match old(self)@.selected_column_index() {
                Some(i) => old(self)@.selected_table is Some && if forward {
                    i + 1 < old(self)@.virtual_order().len()
                } else {
                    i > 0
                },
                None => false,
            },
            final(self)@ == if done {
                old(self)@.reordered(
                    old(self)@.selected_column_index()->0,
                    if forward {
                        old(self)@.selected_column_index()->0 + 1
                    } else {
                        old(self)@.selected_column_index()->0 - 1
                    },
                )
            } else {
                old(self)@
            },
            old(self)@.well_formed() ==> final(self)@.well_formed(),
    {
        proof {
            if let Some(name) = self@.selected_column {
                self@.virtual_order().index_of_first_ensures(name);
            }
        }
        match self.get_selected_column_index() {
            Some(current) => {
                let total = self.virtual_order_ref().len();
                if forward {
                    if current + 1 < total {
                        self.reorder_column(current, current + 1)
                    } else {
                        false
                    }
                } else if current > 0 {
                    self.reorder_column(current, current - 1)
                } else {
                    false
                }
            },
            None => false,
        }
    }

    /// Moves the column selection of the table one column to the side,
    /// where the table has data.
    pub fn step_column(&mut self, forward: bool)
        ensures
            final(self)@ == if old(self)@.table_data is Some {
                if forward {
                    old(self)@.selection_moved_right()
                } else {
                    old(self)@.selection_moved_left()
                }
            } else {
                old(self)@
            },
            old(self)@.well_formed() ==> final(self)@.well_formed(),
    {
        proof {
            lemma_model_texts(self);
        }
        let columns = match &self.table_data {
            Some(data) => Some(data.columns.len()),
            None => None,
        };
        if let Some(count) = columns {
            if forward {
                self.move_selected_right(count, crate::state::navigate::ASSUMED_VISIBLE_COLUMNS);
            } else {
                self.move_selected_left();
            }
        }
    }
}

impl App {
    /// Moves the selected column one place in the display order and
    /// fetches the table anew.
    fn nudge_column(&mut self, forward: bool) -> (commands: Vec<Command>)
        requires
            old(self)@.state.modifies_in_table(),
        ensures
            forward ==> vim_right_handled(old(self)@, final(self)@, commands.deep_view()),
            !forward ==> vim_left_handled(old(self)@, final(self)@, commands.deep_view()),
            old(self)@.state.well_formed() ==> final(self)@.state.well_formed(),
    {
        if self.state.nudge_selected_column(forward) {
            self.begin_fetch(Refresh::Layout)
        } else {
            no_commands()
        }
    }

    /// Scrolls the active inspect section a few rows.
    fn inspect_sideways(&mut self, forward: bool) -> (commands: Vec<Command>)
        requires
            old(self)@.state.inspect_mode,
            !old(self)@.state.modifies_in_table(),
        ensures
            forward ==> vim_right_handled(old(self)@, final(self)@, commands.deep_view()),
            !forward ==> vim_left_handled(old(self)@, final(self)@, commands.deep_view()),
            old(self)@.state.well_formed() ==> final(self)@.state.well_formed(),
    {
        let (max_rows, visible_rows) = self.calculate_inspect_scroll_bounds();
        if forward {
            self.state.inspect_scroll_down_by(max_rows, visible_rows, INSPECT_STEP_ROWS);
        } else {
            self.state.inspect_scroll_up_by(INSPECT_STEP_ROWS);
        }
        no_commands()
    }

    /// Moves to the left in the panel that has the focus.
    fn panel_left(&mut self) -> (commands: Vec<Command>)
        requires
            !old(self)@.state.inspect_mode,
            !old(self)@.state.modifies_in_table(),
        ensures
            vim_left_handled(old(self)@, final(self)@, commands.deep_view()),
            old(self)@.state.well_formed() ==> final(self)@.state.well_formed(),
    {
        proof {
            lemma_model_scalars(&self.state);
        }
        match self.state.active_panel {
            NavigationPanel::MainContent => self.state.step_column(false),
            NavigationPanel::TableList => self.state.enter_side_panel(
                NavigationPanel::DatabaseList,
                true,
            ),
            NavigationPanel::DatabaseList => self.state.enter_side_panel(
                NavigationPanel::TableList,
                true,
            ),
            NavigationPanel::StatusBar => {},
        }
        no_commands()
    }

    /// Moves to the right in the panel that has the focus.
    fn panel_right(&mut self) -> (commands: Vec<Command>)
        requires
            !old(self)@.state.inspect_mode,
            !old(self)@.state.modifies_in_table(),
        ensures
            vim_right_handled(old(self)@, final(self)@, commands.deep_view()),
            old(self)@.state.well_formed() ==> final(self)@.state.well_formed(),
    {
        proof {
            lemma_model_scalars(&self.state);
        }
        match self.state.active_panel {
            NavigationPanel::MainContent => self.state.step_column(true),
            NavigationPanel::DatabaseList => self.state.enter_side_panel(
                NavigationPanel::TableList,
                true,
            ),
            NavigationPanel::TableList => self.state.enter_side_panel(
                NavigationPanel::DatabaseList,
                false,
            ),
            NavigationPanel::StatusBar => {},
        }
        no_commands()
    }

    /// Handles the left key.
    pub fn handle_vim_left(&mut self) -> (commands: Vec<Command>)
        ensures
            vim_left_handled(old(self)@, final(self)@, commands.deep_view()),
            old(self)@.state.well_formed() ==> final(self)@.state.well_formed(),
    {
        proof {
            lemma_model_scalars(&self.state);
        }
        if self.state.is_modifying && self.state.active_panel == NavigationPanel::MainContent
            && !self.state.inspect_mode {
            self.nudge_column(false)
        } else if self.state.inspect_mode {
            self.inspect_sideways(false)
        } else {
            self.panel_left()
        }
    }

    /// Handles the right key.
    pub fn handle_vim_right(&mut self) -> (commands: Vec<Command>)
        ensures
            vim_right_handled(old(self)@, final(self)@, commands.deep_view()),
            old(self)@.state.well_formed() ==> final(self)@.state.well_formed(),
    {
        proof {
            lemma_model_scalars(&self.state);
        }
        if self.state.is_modifying && self.state.active_panel == NavigationPanel::MainContent
            && !self.state.inspect_mode {
            self.nudge_column(true)
        } else if self.state.inspect_mode {
            self.inspect_sideways(true)
        } else {
            self.panel_right()
        }
    }
}

} // verus!
