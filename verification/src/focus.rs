//! Which panel owns the keyboard, and the modes that take it over.

use vstd::prelude::*;

verus! {

#[derive(Debug, Clone, Copy, PartialEq, Eq, Structural)]
pub enum AppState {
    DatabaseBrowser,
    TableViewer,
    QueryEditor,
    ImportWizard,
    ExportWizard,
    Settings,
}

impl Default for AppState {
    fn default() -> (state: Self)
        ensures
            state == AppState::DatabaseBrowser,
    {
        AppState::DatabaseBrowser
    }
}

#[derive(Debug, Clone, Copy, PartialEq, Eq, Structural)]
pub enum NavigationPanel {
    DatabaseList,
    TableList,
    MainContent,
    StatusBar,
}

impl Default for NavigationPanel {
    fn default() -> (panel: Self)
        ensures
            panel == NavigationPanel::DatabaseList,
    {
        NavigationPanel::DatabaseList
    }
}

#[derive(Debug, Clone, Copy, PartialEq, Eq, Structural)]
pub enum InspectSection {
    Schema,
    Statistics,
}

impl Default for InspectSection {
    fn default() -> (section: Self)
        ensures
            section == InspectSection::Schema,
    {
        InspectSection::Schema
    }
}

#[derive(Debug, Clone, Copy, PartialEq, Eq, Structural)]
pub enum TableCreationStep {
    EnteringTableName,
    SelectingFile,
    ImportingData,
}

impl Default for TableCreationStep {
    fn default() -> (step: Self)
        ensures
            step == TableCreationStep::EnteringTableName,
    {
        TableCreationStep::EnteringTableName
    }
}

#[derive(Debug, Clone, PartialEq, Eq)]
pub enum DeleteConfirmationState {
    /// Nothing is waiting to be confirmed.
    Inactive,
    /// The database that is about to be deleted.
    Database(String),
    /// The table that is about to be deleted.
    Table(String),
}

impl Default for DeleteConfirmationState {
    fn default() -> (state: Self)
        ensures
            state == DeleteConfirmationState::Inactive,
    {
        DeleteConfirmationState::Inactive
    }
}

/// A delete confirmation as contracts see it.
pub ghost enum DeleteConfirmationModel {
    Inactive,
    Database(Seq<char>),
    Table(Seq<char>),
}

impl DeepView for DeleteConfirmationState {
    type V = DeleteConfirmationModel;

    open spec fn deep_view(&self) -> DeleteConfirmationModel {
        match self {
            DeleteConfirmationState::Inactive => DeleteConfirmationModel::Inactive,
            DeleteConfirmationState::Database(name) => DeleteConfirmationModel::Database(name@),
            DeleteConfirmationState::Table(name) => DeleteConfirmationModel::Table(name@),
        }
    }
}

/// The two panels on the left-hand side.
pub open spec fn is_left_panel(panel: NavigationPanel) -> bool {
    panel == NavigationPanel::DatabaseList || panel == NavigationPanel::TableList
}

/// Where the focus goes forward from `active`: from either left-hand panel
/// to the main content, from the main content back to the left-hand panel
/// that was used last, from the status bar to the database list.
pub open spec fn panel_after(active: NavigationPanel, last_left: NavigationPanel) -> NavigationPanel {
    match active {
        NavigationPanel::DatabaseList => NavigationPanel::MainContent,
        NavigationPanel::TableList => NavigationPanel::MainContent,
        NavigationPanel::MainContent => last_left,
        NavigationPanel::StatusBar => NavigationPanel::DatabaseList,
    }
}

/// Where the focus goes backward from `active`, round the cycle database
/// list, status bar, main content, table list.
pub open spec fn panel_before(active: NavigationPanel) -> NavigationPanel {
    match active {
        NavigationPanel::DatabaseList => NavigationPanel::StatusBar,
        NavigationPanel::TableList => NavigationPanel::DatabaseList,
        NavigationPanel::MainContent => NavigationPanel::TableList,
        NavigationPanel::StatusBar => NavigationPanel::MainContent,
    }
}

/// Going backward four times comes round to the start.
pub proof fn lemma_panel_before_cycles(active: NavigationPanel)
    ensures
        panel_before(panel_before(panel_before(panel_before(active)))) == active,
        panel_before(active) != active,
{
}

} // verus!
