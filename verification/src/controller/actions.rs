//! The keys that act: jumps to the edges, the modify mode, Enter, and the
//! deletions.

use crate::controller::moves::fetch_begun;
use crate::controller::{
    no_commands, one_command, App, AppModel, Catalog, CatalogModel, Command, CommandModel,
    Refresh,
};
use crate::focus::{DeleteConfirmationModel, InspectSection, NavigationPanel};
use crate::names::Name;
use crate::state::focus::focus_moved;
use crate::state::{lemma_model_scalars, lemma_model_texts, ApplicationState, StateModel};
use vstd::prelude::*;
use vstd::string::*;

verus! {

/// An edge of the table or of a list.
#[derive(Debug, Clone, Copy, PartialEq, Eq, Structural)]
pub enum Edge {
    Top,
    Bottom,
    Left,
    Right,
}

impl StateModel {
    /// The state after a jump to `edge`.
    pub open spec fn jumped(self, edge: Edge) -> StateModel {
        match edge {
            Edge::Top => self.jumped_up(),
            Edge::Bottom => self.jumped_down(),
            Edge::Left => self.jumped_left(),
            Edge::Right => self.jumped_right(),
        }
    }

    /// The place in the display order that a move of the selected column
    /// to `edge` aims at: the front for top and left, the end for bottom
    /// and right.
    pub open spec fn edge_position(self, edge: Edge) -> int {
        match edge {
            Edge::Top => 0,
            Edge::Left => 0,
            Edge::Bottom => self.virtual_order().len() - 1,
            Edge::Right => self.virtual_order().len() - 1,
        }
    }

    /// Whether the modify mode can be entered: the table has the focus and
    /// shows data, or the column list of the inspect mode is active; and
    /// the mode is not on already.
    pub open spec fn can_start_modifying(self) -> bool {
        &&& !self.is_modifying
        &&& ((self.active_panel == NavigationPanel::MainContent && self.table_data is Some) || (
        self.inspect_mode && self.inspect_active_section == InspectSection::Schema))
    }

    /// Whether the keys of the table viewer apply: the table has the focus
    /// and shows data.
    pub open spec fn views_table(self) -> bool {
        self.active_panel == NavigationPanel::MainContent && self.table_data is Some
    }
}

/// What a jump key does. In modify mode it moves the selected column to
/// the edge and fetches the table anew; else it jumps.
pub open spec fn extreme_handled(
    before: AppModel,
    edge: Edge,
    after: AppModel,
    commands: Seq<CommandModel>,
) -> bool {
    let s = before.state;
    &&& after == (AppModel { state: after.state, ..before })
    &&& if s.is_modifying {
        if s.selected_column_index() is Some && s.selected_table is Some {
            fetch_begun(
                s.selected_moved_to(s.edge_position(edge)),
                Refresh::Layout,
                after.state,
                commands,
            )
        } else {
            after.state == s && commands.len() == 0
        }
    } else {
        after.state == s.jumped(edge) && commands.len() == 0
    }
}

/// The name at `index` of `names`, if there is one.
pub open spec fn name_at(names: Seq<Name>, index: usize) -> Option<Name> {
    if index < names.len() {
        Some(names[index as int])
    } else {
        None
    }
}

impl AppModel {
    /// The database that a deletion is about: the one marked in the open
    /// dropdown, or the one marked in the list.
    pub open spec fn marked_database(self, catalog: CatalogModel) -> Option<Name> {
        name_at(
            catalog.databases,
            if self.state.database_dropdown_expanded {
                self.state.dropdown_selected_index
            } else {
                self.selected_db_index
            },
        )
    }

    /// The table that is marked in the table list.
    pub open spec fn marked_table(self, catalog: CatalogModel) -> Option<Name> {
        name_at(catalog.tables, self.selected_table_index)
    }

    /// The commands that delete at once what is marked in the panel that
    /// has the focus.
    pub open spec fn immediate_delete_commands(self, catalog: CatalogModel) -> Seq<CommandModel> {
        match self.state.active_panel {
            NavigationPanel::DatabaseList => match self.marked_database(catalog) {
                Some(name) => seq![CommandModel::DeleteDatabase { name }],
                None => Seq::empty(),
            },
            NavigationPanel::TableList => match self.marked_table(catalog) {
                Some(name) => seq![CommandModel::DeleteTable { name }],
                None => Seq::empty(),
            },
            _ => Seq::empty(),
        }
    }

    /// The state with a confirmation pending for what is marked in the
    /// panel that has the focus.
    pub open spec fn delete_confirmation_started(self, catalog: CatalogModel) -> StateModel {
        match self.state.active_panel {
            NavigationPanel::DatabaseList => match self.marked_database(catalog) {
                Some(name) => StateModel {
                    delete_confirmation: DeleteConfirmationModel::Database(name),
                    ..self.state
                },
                None => self.state,
            },
            NavigationPanel::TableList => match self.marked_table(catalog) {
                Some(name) => StateModel {
                    delete_confirmation: DeleteConfirmationModel::Table(name),
                    ..self.state
                },
                None => self.state,
            },
            _ => self.state,
        }
    }

    /// The position of the current database in the list of databases,
    /// where it is in the list; else the mark as it is.
    pub open spec fn synced_db_index(self, catalog: CatalogModel) -> usize {
        match catalog.current_database {
            Some(name) => match catalog.databases.index_of_first(name) {
                Some(i) => i as usize,
                None => self.selected_db_index,
            },
            None => self.selected_db_index,
        }
    }

    /// The position of the selected table in the list of tables, where it
    /// is in the list; else the mark as it is.
    pub open spec fn synced_table_index(self, catalog: CatalogModel) -> usize {
        match self.state.selected_table {
            Some(name) => match catalog.tables.index_of_first(name) {
                Some(i) => i as usize,
                None => self.selected_table_index,
            },
            None => self.selected_table_index,
        }
    }
}

/// What Enter does in the panels.
pub open spec fn enter_handled(
    before: AppModel,
    catalog: CatalogModel,
    after: AppModel,
    commands: Seq<CommandModel>,
) -> bool {
    let s = before.state;
    if s.is_modifying {
        after == (AppModel {
            state: StateModel { is_modifying: false, modify_backup_column_order: None, ..s },
            ..before
        }) && commands.len() == 0
    } else {
        match s.active_panel {
            NavigationPanel::DatabaseList => if s.database_dropdown_expanded {
                &&& after == (AppModel {
                    state: StateModel { database_dropdown_expanded: false, ..s },
                    ..before
                })
                &&& commands == match name_at(catalog.databases, s.dropdown_selected_index) {
                    Some(name) => seq![CommandModel::SelectDatabase { name }],
                    None => Seq::<CommandModel>::empty(),
                }
            } else {
                after == (AppModel {
                    state: s.dropdown_stepped(
                        catalog.databases.len(),
                        before.selected_db_index,
                        true,
                    ),
                    ..before
                }) && commands.len() == 0
            },
            NavigationPanel::TableList => match before.marked_table(catalog) {
                Some(name) => table_entered(before, catalog, name, after, commands),
                None => after == before && commands.len() == 0,
            },
            NavigationPanel::MainContent => after == (AppModel {
                state: if s.table_data is Some {
                    s.expansion_toggled()
                } else {
                    s
                },
                ..before
            }) && commands.len() == 0,
            NavigationPanel::StatusBar => after == before && commands.len() == 0,
        }
    }
}

/// The table `name` was selected from the table list: what belonged to the
/// table before is gone, the mark in the list follows the selection, the
/// data is asked for, and the focus goes to the table viewer.
pub open spec fn table_entered(
    before: AppModel,
    catalog: CatalogModel,
    name: Name,
    after: AppModel,
    commands: Seq<CommandModel>,
) -> bool {
    let selected = before.state.table_selected(name);
    exists|fetched: StateModel|
        #![auto]
        {
            &&& fetch_begun(selected, Refresh::Initial, fetched, commands)
            &&& focus_moved(
                fetched,
                after.state,
                NavigationPanel::MainContent,
                fetched.last_left_panel,
            )
            &&& after == (AppModel {
                state: after.state,
                selected_table_index: (AppModel { state: selected, ..before }).synced_table_index(
                    catalog,
                ),
                ..before
            })
        }
}

impl StateModel {
    /// The state with the table `name` selected, as `select_table` leaves
    /// it.
    pub open spec fn table_selected(self, name: Name) -> StateModel {
        StateModel {
            selected_table: Some(name),
            table_data: None,
            scroll_x: 0,
            scroll_y: 0,
            selected_row: 0,
            selected_column: None,
            expanded_columns: Set::empty(),
            sort_columns: Seq::empty(),
            column_filters: Seq::empty(),
            original_column_names: Seq::empty(),
            column_order: Seq::empty(),
            ..self
        }
    }

    /// The state with the selected column expanded, or collapsed where it
    /// was expanded.
    pub open spec fn expansion_toggled(self) -> StateModel {
        match self.visible_index() {
            Some(i) => StateModel {
                expanded_columns: if self.expanded_columns.contains(i as usize) {
                    self.expanded_columns.remove(i as usize)
                } else {
                    self.expanded_columns.insert(i as usize)
                },
                ..self
            },
            None => self,
        }
    }
}

/// The name at `index` of `names`, if there is one.
pub fn pick_name(names: &Vec<String>, index: usize) -> (name: Option<String>)
    ensures
        name.deep_view() == name_at(names.deep_view(), index),
{
    if index < names.len() {
        Some(names[index].clone())
    } else {
        None
    }
}

impl ApplicationState {
    /// Jumps to `edge`.
    pub fn navigate_extreme(&mut self, edge: Edge)
        ensures
            final(self)@ == old(self)@.jumped(edge),
            old(self)@.well_formed() ==> final(self)@.well_formed(),
    {
        match edge {
            Edge::Top => self.navigate_extreme_up(),
            Edge::Bottom => self.navigate_extreme_down(),
            Edge::Left => self.navigate_extreme_left(),
            Edge::Right => self.navigate_extreme_right(),
        }
    }

    /// Moves the selected column to `edge` of the display order. Says
    /// whether it did.
    pub fn move_column_extreme(&mut self, edge: Edge) -> (done: bool)
        ensures
            done == (old(self)@.selected_column_index() is Some && old(self)@.selected_table
                is Some),
            final(self)@ == old(self)@.selected_moved_to(old(self)@.edge_position(edge)),
            old(self)@.well_formed() ==> final(self)@.well_formed(),
    {
        match edge {
            Edge::Top => self.move_column_extreme_up(),
            Edge::Bottom => self.move_column_extreme_down(),
            Edge::Left => self.move_column_extreme_left(),
            Edge::Right => self.move_column_extreme_right(),
        }
    }

    /// Whether the modify mode can be entered.
    pub fn can_start_modifying(&self) -> (can: bool)
        ensures
            can == self@.can_start_modifying(),
    {
        proof {
            lemma_model_scalars(self);
            lemma_model_texts(self);
        }
        !self.is_modifying && ((self.active_panel == NavigationPanel::MainContent
            && self.table_data.is_some()) || (self.inspect_mode && self.inspect_active_section
            == InspectSection::Schema))
    }

    /// Whether the keys of the table viewer apply.
    pub fn views_table(&self) -> (views: bool)
        ensures
            views == self@.views_table(),
    {
        proof {
            lemma_model_scalars(self);
            lemma_model_texts(self);
        }
        self.active_panel == NavigationPanel::MainContent && self.table_data.is_some()
    }

    /// Expands or collapses the selected column, where the table has data.
    pub fn toggle_expansion_in_table(&mut self)
        ensures
            final(self)@ == if old(self)@.table_data is Some {
                old(self)@.expansion_toggled()
            } else {
                old(self)@
            },
            old(self)@.well_formed() ==> final(self)@.well_formed(),
    {
        proof {
            lemma_model_texts(self);
        }
        if self.table_data.is_some() {
            self.toggle_column_expansion();
        }
    }
}

impl App {
    /// Handles a jump key.
    pub fn handle_extreme(&mut self, edge: Edge) -> (commands: Vec<Command>)
        ensures
            extreme_handled(old(self)@, edge, final(self)@, commands.deep_view()),
            old(self)@.state.well_formed() ==> final(self)@.state.well_formed(),
    {
        proof {
            lemma_model_scalars(&self.state);
        }
        if self.state.is_modifying {
            if self.state.move_column_extreme(edge) {
                self.begin_fetch(Refresh::Layout)
            } else {
                no_commands()
            }
        } else {
            self.state.navigate_extreme(edge);
            no_commands()
        }
    }

    /// Handles the jump to the top.
    pub fn handle_extreme_up(&mut self) -> (commands: Vec<Command>)
        ensures
            extreme_handled(old(self)@, Edge::Top, final(self)@, commands.deep_view()),
            old(self)@.state.well_formed() ==> final(self)@.state.well_formed(),
    {
        self.handle_extreme(Edge::Top)
    }

    /// Handles the jump to the bottom.
    pub fn handle_extreme_down(&mut self) -> (commands: Vec<Command>)
        ensures
            extreme_handled(old(self)@, Edge::Bottom, final(self)@, commands.deep_view()),
            old(self)@.state.well_formed() ==> final(self)@.state.well_formed(),
    {
        self.handle_extreme(Edge::Bottom)
    }

    /// Handles the jump to the left edge.
    pub fn handle_extreme_left(&mut self) -> (commands: Vec<Command>)
        ensures
            extreme_handled(old(self)@, Edge::Left, final(self)@, commands.deep_view()),
            old(self)@.state.well_formed() ==> final(self)@.state.well_formed(),
    {
        self.handle_extreme(Edge::Left)
    }

    /// Handles the jump to the right edge.
    pub fn handle_extreme_right(&mut self) -> (commands: Vec<Command>)
        ensures
            extreme_handled(old(self)@, Edge::Right, final(self)@, commands.deep_view()),
            old(self)@.state.well_formed() ==> final(self)@.state.well_formed(),
    {
        self.handle_extreme(Edge::Right)
    }

    /// Enters the modify mode where that can be done.
    pub fn handle_modify_mode(&mut self)
        ensures
            final(self)@ == (AppModel {
                state: if old(self)@.state.can_start_modifying() {
                    StateModel {
                        is_modifying: true,
                        modify_backup_column_order: Some(old(self)@.state.virtual_order()),
                        ..old(self)@.state
                    }
                } else {
                    old(self)@.state
                },
                ..old(self)@
            }),
            old(self)@.state.well_formed() ==> final(self)@.state.well_formed(),
    {
        if self.state.can_start_modifying() {
            self.state.start_modifying();
        }
    }

    /// Puts the mark of the database list on the current database.
    pub fn sync_selected_db_index(&mut self, catalog: &Catalog)
        ensures
            final(self)@ == (AppModel {
                selected_db_index: old(self)@.synced_db_index(catalog.deep_view()),
                ..old(self)@
            }),
            old(self)@.state.well_formed() ==> final(self)@.state.well_formed(),
    {
        if let Some(current) = &catalog.current_database {
            if let Some(index) = crate::names::position_of(&catalog.databases, current.as_str()) {
                self.selected_db_index = index;
            }
        }
    }

    /// Puts the mark of the table list on the selected table.
    pub fn sync_selected_table_index(&mut self, catalog: &Catalog)
        ensures
            final(self)@ == (AppModel {
                selected_table_index: old(self)@.synced_table_index(catalog.deep_view()),
                ..old(self)@
            }),
            old(self)@.state.well_formed() ==> final(self)@.state.well_formed(),
    {
        proof {
            lemma_model_texts(&self.state);
        }
        if let Some(table) = &self.state.selected_table {
            if let Some(index) = crate::names::position_of(&catalog.tables, table.as_str()) {
                self.selected_table_index = index;
            }
        }
    }

    /// The database that a deletion is about.
    fn marked_database(&self, catalog: &Catalog) -> (name: Option<String>)
        ensures
            name.deep_view() == self@.marked_database(catalog.deep_view()),
    {
        proof {
            lemma_model_scalars(&self.state);
        }
        let index = if self.state.database_dropdown_expanded {
            self.state.dropdown_selected_index
        } else {
            self.selected_db_index
        };
        pick_name(&catalog.databases, index)
    }

    /// Asks for confirmation before what is marked in the panel that has
    /// the focus is deleted.
    pub fn start_delete_confirmation(&mut self, catalog: &Catalog)
        ensures
            final(self)@ == (AppModel {
                state: old(self)@.delete_confirmation_started(catalog.deep_view()),
                ..old(self)@
            }),
            old(self)@.state.well_formed() ==> final(self)@.state.well_formed(),
    {
        proof {
            lemma_model_scalars(&self.state);
        }
        match self.state.active_panel {
            NavigationPanel::DatabaseList => {
                if let Some(name) = self.marked_database(catalog) {
                    self.state.start_database_delete_confirmation(name);
                }
            },
            NavigationPanel::TableList => {
                if let Some(name) = pick_name(&catalog.tables, self.selected_table_index) {
                    self.state.start_table_delete_confirmation(name);
                }
            },
            _ => {},
        }
    }

    /// Asks for what is marked in the panel that has the focus to be
    /// deleted at once.
    pub fn immediate_delete(&self, catalog: &Catalog) -> (commands: Vec<Command>)
        ensures
            commands.deep_view() == self@.immediate_delete_commands(catalog.deep_view()),
    {
        proof {
            lemma_model_scalars(&self.state);
        }
        match self.state.active_panel {
            NavigationPanel::DatabaseList => match self.marked_database(catalog) {
                Some(name) => one_command(Command::DeleteDatabase { name }),
                None => no_commands(),
            },
            NavigationPanel::TableList => match pick_name(
                &catalog.tables,
                self.selected_table_index,
            ) {
                Some(name) => one_command(Command::DeleteTable { name }),
                None => no_commands(),
            },
            _ => no_commands(),
        }
    }

    /// Selects the table `name` from the table list.
    fn enter_table(&mut self, catalog: &Catalog, name: String) -> (commands: Vec<Command>)
        ensures
            table_entered(old(self)@, catalog.deep_view(), name@, final(self)@, commands.deep_view()),
            old(self)@.state.well_formed() ==> final(self)@.state.well_formed(),
    {
        self.state.select_table(name);
        self.sync_selected_table_index(catalog);
        let commands = self.begin_fetch(Refresh::Initial);
        let ghost fetched = self.state@;
        proof {
            lemma_model_scalars(&self.state);
        }
        self.state.set_active_panel(NavigationPanel::MainContent);
        assert(fetch_begun(
            old(self)@.state.table_selected(name@),
            Refresh::Initial,
            fetched,
            commands.deep_view(),
        ));
        commands
    }

    /// Handles Enter in the database list: a closed dropdown opens, an
    /// open one selects the database that is marked and closes.
    fn enter_database_list(&mut self, catalog: &Catalog) -> (commands: Vec<Command>)
        requires
            !old(self)@.state.is_modifying,
            old(self)@.state.active_panel == NavigationPanel::DatabaseList,
        ensures
            enter_handled(old(self)@, catalog.deep_view(), final(self)@, commands.deep_view()),
            old(self)@.state.well_formed() ==> final(self)@.state.well_formed(),
    {
        proof {
            lemma_model_scalars(&self.state);
        }
        if self.state.database_dropdown_expanded {
            let picked = pick_name(&catalog.databases, self.state.dropdown_selected_index);
            self.state.collapse_database_dropdown();
            match picked {
                Some(name) => one_command(Command::SelectDatabase { name }),
                None => no_commands(),
            }
        } else {
            self.state.step_dropdown(catalog.databases.len(), self.selected_db_index, true);
            no_commands()
        }
    }

    /// Handles Enter in the panels.
    pub fn handle_enter(&mut self, catalog: &Catalog) -> (commands: Vec<Command>)
        ensures
            enter_handled(old(self)@, catalog.deep_view(), final(self)@, commands.deep_view()),
            old(self)@.state.well_formed() ==> final(self)@.state.well_formed(),
    {
        proof {
            lemma_model_scalars(&self.state);
        }
        if self.state.is_modifying {
            self.state.confirm_modifying();
            return no_commands();
        }
        match self.state.active_panel {
            NavigationPanel::DatabaseList => self.enter_database_list(catalog),
            NavigationPanel::TableList => match pick_name(
                &catalog.tables,
                self.selected_table_index,
            ) {
                Some(name) => self.enter_table(catalog, name),
                None => no_commands(),
            },
            NavigationPanel::MainContent => {
                self.state.toggle_expansion_in_table();
                no_commands()
            },
            NavigationPanel::StatusBar => no_commands(),
        }
    }
}

} // verus!
