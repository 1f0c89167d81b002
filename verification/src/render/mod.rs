//! The draw plan: what is drawn where, in plain words and rectangles. The
//! plan is a function of the state and of the areas that the terminal
//! gives; painting it is left to the outside.

use crate::controller::{App, AppModel};
use crate::focus::NavigationPanel;
use crate::state::{lemma_model_scalars, lemma_model_texts, ApplicationState};
use vstd::prelude::*;

pub mod inspect;
pub mod lists;
pub mod texts;

verus! {

/// A rectangle of the terminal, in cells.
#[derive(Debug, Clone, Copy, PartialEq, Eq, Structural)]
pub struct Area {
    pub x: u16,
    pub y: u16,
    pub width: u16,
    pub height: u16,
}

/// How the border of a panel is drawn.
#[derive(Debug, Clone, Copy, PartialEq, Eq, Structural)]
pub enum BorderEmphasis {
    /// The panel has just taken the focus.
    Flashing,
    /// The panel has the focus.
    Active,
    /// The panel does not have the focus.
    Inactive,
}

/// The border of `panel` where `active` has the focus and the flash is on
/// or off.
pub open spec fn border_for(panel: NavigationPanel, active: NavigationPanel, flashing: bool) -> BorderEmphasis {
    if panel != active {
        BorderEmphasis::Inactive
    } else if flashing {
        BorderEmphasis::Flashing
    } else {
        BorderEmphasis::Active
    }
}

/// A rectangle of the given size in the middle of `area`, as far as the
/// area has room for it to be moved in from the top left corner.
pub open spec fn centered_in(area: Area, width: u16, height: u16) -> Area {
    Area {
        x: if area.width >= width {
            ((area.width - width) / 2) as u16
        } else {
            0
        },
        y: if area.height >= height {
            ((area.height - height) / 2) as u16
        } else {
            0
        },
        width,
        height,
    }
}

/// The windows that are drawn over the panels, in the order in which they
/// are drawn.
#[derive(Debug, Clone, Copy, PartialEq, Eq, Structural)]
pub enum Overlay {
    Notifications,
    FileBrowser,
    DatabaseDropdown,
    DatabaseNameInput,
    SaveFilenameInput,
    ViewNameInput,
    DeleteConfirmation,
}

/// What fills the space between header and status bar.
#[derive(Debug, Clone, PartialEq, Eq)]
pub enum MainArea {
    /// The inspect view of the table.
    Inspect { table: String },
    /// The inspect mode is on without a table: nothing is drawn.
    Empty,
    /// The sidebar and the table viewer.
    Panels,
}

/// A main area as contracts see it.
pub ghost enum MainAreaModel {
    Inspect { table: Seq<char> },
    Empty,
    Panels,
}

impl DeepView for MainArea {
    type V = MainAreaModel;

    open spec fn deep_view(&self) -> MainAreaModel {
        match self {
            MainArea::Inspect { table } => MainAreaModel::Inspect { table: table@ },
            MainArea::Empty => MainAreaModel::Empty,
            MainArea::Panels => MainAreaModel::Panels,
        }
    }
}

impl AppModel {
    /// What fills the space between header and status bar.
    pub open spec fn main_area(self) -> MainAreaModel {
        if self.state.inspect_mode {
            match self.state.selected_table {
                Some(table) => MainAreaModel::Inspect { table },
                None => MainAreaModel::Empty,
            }
        } else {
            MainAreaModel::Panels
        }
    }

    /// Whether `overlay` is drawn.
    pub open spec fn shows(self, overlay: Overlay) -> bool {
        match overlay {
            Overlay::Notifications => self.state.notifications.len() > 0,
            Overlay::FileBrowser => self.show_file_browser,
            Overlay::DatabaseDropdown => self.state.database_dropdown_expanded,
            Overlay::DatabaseNameInput => self.state.is_entering_database_name,
            Overlay::SaveFilenameInput => self.state.is_entering_save_filename,
            Overlay::ViewNameInput => self.state.is_entering_view_name,
            Overlay::DeleteConfirmation => !(self.state.delete_confirmation is Inactive),
        }
    }

    /// The overlays that are drawn, in the order in which they are drawn.
    pub open spec fn overlays(self) -> Seq<Overlay> {
        seq![
            Overlay::Notifications,
            Overlay::FileBrowser,
            Overlay::DatabaseDropdown,
            Overlay::DatabaseNameInput,
            Overlay::SaveFilenameInput,
            Overlay::ViewNameInput,
            Overlay::DeleteConfirmation,
        ].filter(|o: Overlay| self.shows(o))
    }
}

/// The border of a panel.
pub fn panel_border(panel: NavigationPanel, active: NavigationPanel, flashing: bool) -> (border:
    BorderEmphasis)
    ensures
        border == border_for(panel, active, flashing),
{
    if panel != active {
        BorderEmphasis::Inactive
    } else if flashing {
        BorderEmphasis::Flashing
    } else {
        BorderEmphasis::Active
    }
}

/// A rectangle of the given size in the middle of `area`.
pub fn centered_popup(area: Area, width: u16, height: u16) -> (popup: Area)
    ensures
        popup == centered_in(area, width, height),
{
    Area {
        x: area.width.saturating_sub(width) / 2,
        y: area.height.saturating_sub(height) / 2,
        width,
        height,
    }
}

impl ApplicationState {
    /// The number of notifications that are up.
    pub fn notification_count(&self) -> (count: usize)
        ensures
            count == self@.notifications.len(),
    {
        proof {
            reveal(crate::state::model_of);
        }
        self.notifications.len()
    }
}

impl App {
    /// How the border of `panel` is drawn, given whether the flash is on.
    pub fn panel_border_style(&self, panel: NavigationPanel, flashing: bool) -> (border:
        BorderEmphasis)
        ensures
            border == border_for(panel, self@.state.active_panel, flashing),
    {
        proof {
            lemma_model_scalars(&self.state);
        }
        panel_border(panel, self.state.active_panel, flashing)
    }

    /// How the border of `panel` is drawn by now. A panel without the
    /// focus has a plain border whatever the clock says.
    pub fn get_panel_border_style(&self, panel: NavigationPanel) -> (border: BorderEmphasis)
        ensures
            panel != self@.state.active_panel ==> border == BorderEmphasis::Inactive,
            panel == self@.state.active_panel ==> border != BorderEmphasis::Inactive,
    {
        self.panel_border_style(panel, self.state.is_panel_flashing())
    }

    /// What fills the space between header and status bar.
    pub fn main_area(&self) -> (area: MainArea)
        ensures
            area.deep_view() == self@.main_area(),
    {
        proof {
            lemma_model_scalars(&self.state);
            lemma_model_texts(&self.state);
        }
        if self.state.inspect_mode {
            match &self.state.selected_table {
                Some(table) => MainArea::Inspect { table: table.clone() },
                None => MainArea::Empty,
            }
        } else {
            MainArea::Panels
        }
    }

    /// Whether `overlay` is drawn.
    pub fn shows(&self, overlay: Overlay) -> (shown: bool)
        ensures
            shown == self@.shows(overlay),
    {
        proof {
            lemma_model_scalars(&self.state);
        }
        match overlay {
            Overlay::Notifications => self.state.notification_count() > 0,
            Overlay::FileBrowser => self.show_file_browser,
            Overlay::DatabaseDropdown => self.state.database_dropdown_expanded,
            Overlay::DatabaseNameInput => self.state.is_entering_database_name,
            Overlay::SaveFilenameInput => self.state.is_entering_save_filename,
            Overlay::ViewNameInput => self.state.is_entering_view_name,
            Overlay::DeleteConfirmation => self.state.is_delete_confirmation_active(),
        }
    }

    /// The overlays that are drawn, in the order in which they are drawn.
    pub fn overlays(&self) -> (shown: Vec<Overlay>)
        ensures
            shown@ == self@.overlays(),
    {
        let all = [
            Overlay::Notifications,
            Overlay::FileBrowser,
            Overlay::DatabaseDropdown,
            Overlay::DatabaseNameInput,
            Overlay::SaveFilenameInput,
            Overlay::ViewNameInput,
            Overlay::DeleteConfirmation,
        ];
        let ghost keep = |o: Overlay| self@.shows(o);
        let mut shown: Vec<Overlay> = Vec::new();
        let mut i: usize = 0;
        proof {
            reveal(Seq::filter);
            assert(all@.take(0).filter(keep) =~= Seq::<Overlay>::empty());
        }
        while i < 7
            invariant
                i <= 7,
                all@.len() == 7,
                keep == |o: Overlay| self@.shows(o),
                shown@ == all@.take(i as int).filter(keep),
            decreases 7 - i,
        {
            proof {
                assert(all@.take(i + 1) =~= all@.take(i as int).push(all@[i as int]));
                all@.take(i as int).lemma_filter_push(all@[i as int], keep);
            }
            if self.shows(all[i]) {
                shown.push(all[i]);
            }
            i += 1;
        }
        proof {
            assert(all@.take(7) =~= all@);
            assert(all@ =~= seq![
                Overlay::Notifications,
                Overlay::FileBrowser,
                Overlay::DatabaseDropdown,
                Overlay::DatabaseNameInput,
                Overlay::SaveFilenameInput,
                Overlay::ViewNameInput,
                Overlay::DeleteConfirmation,
            ]);
        }
        shown
    }
}

} // verus!
