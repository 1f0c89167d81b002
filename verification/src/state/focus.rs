//! Moving the focus between panels, the flash that follows a move, and the
//! database dropdown.

use crate::clock::{elapsed_millis, now, span_is_over};
use crate::focus::{is_left_panel, panel_after, panel_before, NavigationPanel};
use crate::state::{ApplicationState, StateModel};
use crate::state::model_of;
use vstd::prelude::*;

verus! {

/// `after` is `before` with the focus on `target` and `last_left` as the
/// left-hand panel to return to. The flash timer starts anew where the
/// focus changed panel, and stays as it was where it did not.
pub open spec fn focus_moved(
    before: StateModel,
    after: StateModel,
    target: NavigationPanel,
    last_left: NavigationPanel,
) -> bool {
    &&& after == (StateModel {
        active_panel: target,
        last_left_panel: last_left,
        panel_flash_timer: after.panel_flash_timer,
        ..before
    })
    &&& target != before.active_panel ==> after.panel_flash_timer is Some
    &&& target == before.active_panel ==> after.panel_flash_timer == before.panel_flash_timer
}

/// The left-hand panel to return to once the focus is on `target`.
pub open spec fn left_panel_after(target: NavigationPanel, last_left: NavigationPanel) -> NavigationPanel {
    if is_left_panel(target) {
        target
    } else {
        last_left
    }
}

/// The left-hand panel to return to once the focus is on `target`.
fn left_panel_for(target: NavigationPanel, last_left: NavigationPanel) -> (panel: NavigationPanel)
    ensures
        panel == left_panel_after(target, last_left),
{
    match target {
        NavigationPanel::DatabaseList => target,
        NavigationPanel::TableList => target,
        _ => last_left,
    }
}

impl ApplicationState {
    /// Puts the focus on `target`, with a flash where that is a change.
    fn move_focus(&mut self, target: NavigationPanel, last_left: NavigationPanel)
        ensures
            focus_moved(old(self)@, final(self)@, target, last_left),
    {
        proof {
            reveal(model_of);
        }
        if self.active_panel != target {
            self.start_panel_flash();
        }
        self.active_panel = target;
        self.last_left_panel = last_left;
    }

    /// Moves the focus forward.
    pub fn next_panel(&mut self)
        ensures
            focus_moved(
                old(self)@,
                final(self)@,
                panel_after(old(self)@.active_panel, old(self)@.last_left_panel),
                left_panel_after(
                    panel_after(old(self)@.active_panel, old(self)@.last_left_panel),
                    old(self)@.last_left_panel,
                ),
            ),
    {
        proof {
            reveal(model_of);
        }
        let target = match self.active_panel {
            NavigationPanel::DatabaseList => NavigationPanel::MainContent,
            NavigationPanel::TableList => NavigationPanel::MainContent,
            NavigationPanel::MainContent => self.last_left_panel,
            NavigationPanel::StatusBar => NavigationPanel::DatabaseList,
        };
        let last_left = left_panel_for(target, self.last_left_panel);
        self.move_focus(target, last_left);
    }

    /// Moves the focus backward.
    pub fn prev_panel(&mut self)
        ensures
            focus_moved(
                old(self)@,
                final(self)@,
                panel_before(old(self)@.active_panel),
                old(self)@.last_left_panel,
            ),
    {
        proof {
            reveal(model_of);
        }
        let target = match self.active_panel {
            NavigationPanel::DatabaseList => NavigationPanel::StatusBar,
            NavigationPanel::TableList => NavigationPanel::DatabaseList,
            NavigationPanel::MainContent => NavigationPanel::TableList,
            NavigationPanel::StatusBar => NavigationPanel::MainContent,
        };
        let last_left = self.last_left_panel;
        self.move_focus(target, last_left);
    }

    /// Puts the focus on `panel`.
    pub fn set_active_panel(&mut self, panel: NavigationPanel)
        ensures
            focus_moved(old(self)@, final(self)@, panel, old(self)@.last_left_panel),
    {
        proof {
            reveal(model_of);
        }
        let last_left = self.last_left_panel;
        self.move_focus(panel, last_left);
    }

    /// Puts the focus on `panel` and, where it is a left-hand panel,
    /// remembers it as the one to return to.
    pub fn set_left_panel(&mut self, panel: NavigationPanel)
        ensures
            focus_moved(
                old(self)@,
                final(self)@,
                panel,
                left_panel_after(panel, old(self)@.last_left_panel),
            ),
    {
        proof {
            reveal(model_of);
        }
        let last_left = left_panel_for(panel, self.last_left_panel);
        self.move_focus(panel, last_left);
    }

    /// Starts the flash from the present instant.
    pub fn start_panel_flash(&mut self)
        ensures
            final(self)@ == (StateModel {
                panel_flash_timer: final(self)@.panel_flash_timer,
                ..old(self)@
            }),
            final(self)@.panel_flash_timer is Some,
    {
        proof {
            reveal(model_of);
        }
        self.panel_flash_timer = Some(now());
    }

    /// Whether the flash is on, given the milliseconds since it started.
    pub fn is_panel_flashing_after(&self, elapsed_ms: u128) -> (flashing: bool)
        ensures
            flashing == (self@.panel_flash_timer is Some && elapsed_ms < self@.flash_duration_ms),
    {
        proof {
            reveal(model_of);
        }
        self.panel_flash_timer.is_some() && !span_is_over(elapsed_ms, self.flash_duration_ms)
    }

    /// Whether the flash is on by now. It never is where no flash was
    /// started or the flash lasts no time.
    pub fn is_panel_flashing(&self) -> (flashing: bool)
        ensures
            self@.panel_flash_timer is None || self@.flash_duration_ms == 0 ==> !flashing,
    {
        proof {
            reveal(model_of);
        }
        match &self.panel_flash_timer {
            Some(start_time) => self.is_panel_flashing_after(elapsed_millis(start_time)),
            None => false,
        }
    }

    /// Forgets the flash where it has lasted its time, given the
    /// milliseconds since it started.
    pub fn update_flash_timer_after(&mut self, elapsed_ms: u128)
        ensures
            final(self)@ == (StateModel {
                panel_flash_timer: if old(self)@.panel_flash_timer is Some && elapsed_ms >= old(
                    self
                )@.flash_duration_ms {
                    None
                } else {
                    old(self)@.panel_flash_timer
                },
                ..old(self)@
            }),
    {
        proof {
            reveal(model_of);
        }
        if self.panel_flash_timer.is_some() && span_is_over(elapsed_ms, self.flash_duration_ms) {
            self.panel_flash_timer = None;
        }
    }

    /// Forgets the flash once its time is over. Whether it is depends on
    /// the clock; a flash that lasts no time is always over.
    pub fn update_flash_timer(&mut self)
        ensures
            final(self)@ == (StateModel {
                panel_flash_timer: final(self)@.panel_flash_timer,
                ..old(self)@
            }),
            final(self)@.panel_flash_timer is None || final(self)@.panel_flash_timer == old(
                self
            )@.panel_flash_timer,
            old(self)@.flash_duration_ms == 0 ==> final(self)@.panel_flash_timer is None,
    {
        proof {
            reveal(model_of);
        }
        let elapsed = match &self.panel_flash_timer {
            Some(start_time) => Some(elapsed_millis(start_time)),
            None => None,
        };
        if let Some(elapsed_ms) = elapsed {
            self.update_flash_timer_after(elapsed_ms);
        }
    }

    /// Opens the dropdown. A marked entry beyond the list goes back to the
    /// first.
    pub fn expand_database_dropdown(&mut self, num_databases: usize)
        ensures
            final(self)@ == (StateModel {
                database_dropdown_expanded: true,
                dropdown_selected_index: if old(self)@.dropdown_selected_index >= num_databases {
                    0
                } else {
                    old(self)@.dropdown_selected_index
                },
                ..old(self)@
            }),
    {
        proof {
            reveal(model_of);
        }
        self.database_dropdown_expanded = true;
        if self.dropdown_selected_index >= num_databases {
            self.dropdown_selected_index = 0;
        }
    }

    /// Closes the dropdown.
    pub fn collapse_database_dropdown(&mut self)
        ensures
            final(self)@ == (StateModel { database_dropdown_expanded: false, ..old(self)@ }),
    {
        proof {
            reveal(model_of);
        }
        self.database_dropdown_expanded = false;
    }

    /// Marks the entry above, if there is one.
    pub fn dropdown_move_up(&mut self)
        ensures
            final(self)@ == (StateModel {
                dropdown_selected_index: if old(self)@.dropdown_selected_index > 0 {
                    (old(self)@.dropdown_selected_index - 1) as usize
                } else {
                    0
                },
                ..old(self)@
            }),
    {
        proof {
            reveal(model_of);
        }
        if self.dropdown_selected_index > 0 {
            self.dropdown_selected_index -= 1;
        }
    }

    /// Marks the entry below, if there is one among `num_databases`.
    pub fn dropdown_move_down(&mut self, num_databases: usize)
        ensures
            final(self)@ == (StateModel {
                dropdown_selected_index: if old(self)@.dropdown_selected_index + 1
                    < num_databases {
                    (old(self)@.dropdown_selected_index + 1) as usize
                } else {
                    old(self)@.dropdown_selected_index
                },
                ..old(self)@
            }),
    {
        proof {
            reveal(model_of);
        }
        if num_databases > 0 && self.dropdown_selected_index < num_databases - 1 {
            self.dropdown_selected_index += 1;
        }
    }

    /// Marks the entry of the current database.
    pub fn set_dropdown_to_current_database(&mut self, current_db_index: usize)
        ensures
            final(self)@ == (StateModel {
                dropdown_selected_index: current_db_index,
                ..old(self)@
            }),
    {
        proof {
            reveal(model_of);
        }
        self.dropdown_selected_index = current_db_index;
    }
}

} // verus!
