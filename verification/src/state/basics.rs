//! Status line, notifications, selection of database and table, the table
//! creation wizard and the small text inputs.

use crate::focus::{
    AppState, DeleteConfirmationModel, DeleteConfirmationState, NavigationPanel,
    TableCreationStep,
};
use crate::notify::{
    is_remainder_of, lemma_unexpired_is_remainder, lemma_unexpired_lasts, remove_expired_after,
    seconds_up, unexpired, Notification, NotificationModel, NotificationType,
};
use crate::notify::{ERROR_NOTIFICATION_SECS, SHORT_NOTIFICATION_SECS};
use crate::state::{ready, ready_text, ApplicationState, StateModel};
use crate::strings::{joined, pop_char, push_char, trim_text, trimmed};
use crate::state::model_of;
use vstd::prelude::*;
use vstd::string::*;

verus! {

/// What the creation wizard adds to the status line at `step`.
pub open spec fn creation_step_text(step: TableCreationStep) -> Seq<char> {
    match step {
        TableCreationStep::EnteringTableName => "Creating table..."@,
        TableCreationStep::SelectingFile => "Selecting file..."@,
        TableCreationStep::ImportingData => "Importing data..."@,
    }
}

/// What the modify mode adds to the status line.
pub open spec fn modify_mode_text(inspect_mode: bool) -> Seq<char> {
    if inspect_mode {
        "MODIFY MODE: j/k to move, J/K for extremes, o to hide/show, Enter to confirm, Esc to cancel"@
    } else {
        "MODIFY MODE: h/l to move, H/L for extremes, o to hide/show, Enter to confirm, Esc to cancel"@
    }
}

/// The parts that stand before the status message: database, table,
/// wizard step and modify mode, each only where it applies.
pub open spec fn status_parts(m: StateModel) -> Seq<Seq<char>> {
    let database = match m.selected_database {
        Some(name) => seq!["Database: "@ + name],
        None => Seq::empty(),
    };
    let table = match m.selected_table {
        Some(name) => seq!["Table: "@ + name],
        None => Seq::empty(),
    };
    let creating = if m.is_creating_table {
        seq![creation_step_text(m.table_creation_step)]
    } else {
        Seq::empty()
    };
    let modifying = if m.is_modifying {
        seq![modify_mode_text(m.inspect_mode)]
    } else {
        Seq::empty()
    };
    database + table + creating + modifying
}

/// The status line: the parts and the status message, separated by " | ".
pub open spec fn status_display(m: StateModel) -> Seq<char> {
    let parts = status_parts(m);
    if parts.len() == 0 {
        m.status_message
    } else {
        joined(parts, " | "@) + " | "@ + m.status_message
    }
}

/// A notification of category `kind` with text `message`, whenever it was
/// made.
pub open spec fn is_notification(
    n: NotificationModel,
    kind: NotificationType,
    message: Seq<char>,
) -> bool {
    &&& n.message == message
    &&& n.notification_type == kind
    &&& n.duration_secs == if kind == NotificationType::Error {
        ERROR_NOTIFICATION_SECS
    } else {
        SHORT_NOTIFICATION_SECS
    }
}

/// `after` is `before` with one more notification of category `kind` and
/// text `message` at the end, and nothing else changed.
pub open spec fn notified(
    before: StateModel,
    after: StateModel,
    kind: NotificationType,
    message: Seq<char>,
) -> bool {
    &&& after.notifications.len() == before.notifications.len() + 1
    &&& after.notifications.drop_last() == before.notifications
    &&& is_notification(after.notifications.last(), kind, message)
    &&& after == (StateModel { notifications: after.notifications, ..before })
}

/// The state in which the creation wizard is closed.
pub open spec fn wizard_closed(m: StateModel) -> StateModel {
    StateModel {
        is_creating_table: false,
        current_state: AppState::DatabaseBrowser,
        new_table_name: Seq::empty(),
        table_creation_step: TableCreationStep::EnteringTableName,
        status_message: ready_text(),
        ..m
    }
}

impl ApplicationState {
    /// Replaces the status message.
    pub fn set_status(&mut self, message: String)
        ensures
            final(self)@ == (StateModel { status_message: message@, ..old(self)@ }),
    {
        proof {
            reveal(model_of);
        }
        self.status_message = message;
    }

    /// The status line.
    pub fn get_status_display(&self) -> (line: String)
        ensures
            line@ == status_display(self@),
    {
        proof {
            reveal(model_of);
        }
        let mut parts: Vec<String> = Vec::new();
        assert(parts.deep_view() =~= Seq::empty());
        if let Some(db) = &self.selected_database {
            let mut part = "Database: ".to_owned();
            part.append(db.as_str());
            parts.push(part);
        }
        let ghost one = match self@.selected_database {
            Some(name) => seq!["Database: "@ + name],
            None => Seq::empty(),
        };
        assert(parts.deep_view() =~= one);
        if let Some(table) = &self.selected_table {
            let mut part = "Table: ".to_owned();
            part.append(table.as_str());
            parts.push(part);
        }
        let ghost two = one + match self@.selected_table {
            Some(name) => seq!["Table: "@ + name],
            None => Seq::empty(),
        };
        assert(parts.deep_view() =~= two);
        if self.is_creating_table {
            match self.table_creation_step {
                TableCreationStep::EnteringTableName => parts.push("Creating table...".to_owned()),
                TableCreationStep::SelectingFile => parts.push("Selecting file...".to_owned()),
                TableCreationStep::ImportingData => parts.push("Importing data...".to_owned()),
            }
        }
        let ghost three = two + if self.is_creating_table {
            seq![creation_step_text(self.table_creation_step)]
        } else {
            Seq::empty()
        };
        assert(parts.deep_view() =~= three);
        if self.is_modifying {
            if self.inspect_mode {
                parts.push(
                    "MODIFY MODE: j/k to move, J/K for extremes, o to hide/show, Enter to confirm, Esc to cancel".to_owned(),
                );
            } else {
                parts.push(
                    "MODIFY MODE: h/l to move, H/L for extremes, o to hide/show, Enter to confirm, Esc to cancel".to_owned(),
                );
            }
        }
        assert(parts.deep_view() =~= status_parts(self@));
        if parts.len() == 0 {
            self.status_message.clone()
        } else {
            let mut line = crate::strings::join_texts(&parts, " | ");
            line.append(" | ");
            line.append(self.status_message.as_str());
            line
        }
    }

    /// Adds a notification behind those that are up.
    pub fn add_notification(&mut self, notification: Notification)
        ensures
            final(self)@ == (StateModel {
                notifications: old(self)@.notifications.push(notification.deep_view()),
                ..old(self)@
            }),
    {
        proof {
            reveal(model_of);
        }
        let ghost model = notification.deep_view();
        self.notifications.push(notification);
        assert(self.notifications.deep_view() =~= old(self).notifications.deep_view().push(model));
    }

    /// Puts up a success notification.
    pub fn show_success(&mut self, message: String)
        ensures
            notified(old(self)@, final(self)@, NotificationType::Success, message@),
    {
        proof {
            reveal(model_of);
        }
        self.add_notification(Notification::success(message));
        assert(self@.notifications.drop_last() =~= old(self)@.notifications);
    }

    /// Puts up an error notification.
    pub fn show_error(&mut self, message: String)
        ensures
            notified(old(self)@, final(self)@, NotificationType::Error, message@),
    {
        proof {
            reveal(model_of);
        }
        self.add_notification(Notification::error(message));
        assert(self@.notifications.drop_last() =~= old(self)@.notifications);
    }

    /// Puts up an info notification.
    pub fn show_info(&mut self, message: String)
        ensures
            notified(old(self)@, final(self)@, NotificationType::Info, message@),
    {
        proof {
            reveal(model_of);
        }
        self.add_notification(Notification::info(message));
        assert(self@.notifications.drop_last() =~= old(self)@.notifications);
    }

    /// Takes down the notifications that have lasted their duration, given
    /// the seconds that each has been up. Those that stay keep their order.
    pub fn remove_expired_after(&mut self, elapsed_secs: &Vec<u64>)
        ensures
            final(self)@ == (StateModel {
                notifications: unexpired(old(self)@.notifications, elapsed_secs@),
                ..old(self)@
            }),
    {
        proof {
            reveal(model_of);
        }
        remove_expired_after(&mut self.notifications, elapsed_secs);
    }

    /// Takes down the notifications whose time is over. Those that stay
    /// keep their order; which ones stay depends on the clock, except that
    /// one with no duration never does.
    pub fn remove_expired_notifications(&mut self)
        ensures
            final(self)@ == (StateModel {
                notifications: final(self)@.notifications,
                ..old(self)@
            }),
            is_remainder_of(final(self)@.notifications, old(self)@.notifications),
            forall|i: int|
                0 <= i < final(self)@.notifications.len() ==> (
                #[trigger] final(self)@.notifications[i]).duration_secs > 0,
    {
        proof {
            reveal(model_of);
        }
        let elapsed = seconds_up(&self.notifications);
        proof {
            lemma_unexpired_is_remainder(self@.notifications, elapsed@);
            lemma_unexpired_lasts(self@.notifications, elapsed@);
        }
        self.remove_expired_after(&elapsed);
    }

    /// Selects a database.
    pub fn select_database(&mut self, database: String)
        ensures
            final(self)@ == (StateModel { selected_database: Some(database@), ..old(self)@ }),
    {
        proof {
            reveal(model_of);
        }
        self.selected_database = Some(database);
    }

    /// Selects a table. Everything that belongs to the table before goes:
    /// its data, the selection and scroll position, the expanded columns,
    /// the sort chain and the filters, the schema order and the display
    /// order. The hidden columns of every table stay.
    pub fn select_table(&mut self, table: String)
        ensures
            final(self)@ == (StateModel {
                selected_table: Some(table@),
                table_data: None,
                scroll_x: 0,
                scroll_y: 0,
                selected_row: 0,
                selected_column: None,
                expanded_columns: Set::empty(),
                sort_columns: Seq::empty(),
                column_filters: Seq::empty(),
                original_column_names: Seq::empty(),
                column_order: Seq::empty(),
                ..old(self)@
            }),
            old(self)@.well_formed() ==> final(self)@.well_formed(),
    {
        proof {
            crate::state::model::lemma_empty_lists_are_sound();
        }
        proof {
            reveal(model_of);
        }
        self.selected_table = Some(table);
        self.table_data = None;
        self.scroll_x = 0;
        self.scroll_y = 0;
        self.selected_row = 0;
        self.selected_column = None;
        self.expanded_columns = Vec::new();
        self.sort_columns = Vec::new();
        self.column_filters = Vec::new();
        self.original_column_names = Vec::new();
        self.column_order = Vec::new();
        proof {
            assert(self.expanded_columns@.to_set() =~= Set::empty());
            assert(self.sort_columns.deep_view() =~= Seq::empty());
            assert(self.column_filters.deep_view() =~= Seq::empty());
            assert(self.original_column_names.deep_view() =~= Seq::empty());
            assert(self.column_order.deep_view() =~= Seq::empty());
        }
    }

    /// Opens the creation wizard at its first step.
    pub fn start_table_creation(&mut self)
        ensures
            final(self)@ == (StateModel {
                is_creating_table: true,
                current_state: AppState::ImportWizard,
                new_table_name: Seq::empty(),
                table_creation_step: TableCreationStep::EnteringTableName,
                status_message: ready_text(),
                ..old(self)@
            }),
    {
        proof {
            reveal(model_of);
        }
        self.is_creating_table = true;
        self.current_state = AppState::ImportWizard;
        self.new_table_name = String::new();
        self.table_creation_step = TableCreationStep::EnteringTableName;
        self.set_status(ready());
    }

    /// Closes the creation wizard and says so.
    pub fn cancel_table_creation(&mut self)
        ensures
            notified(
                wizard_closed(old(self)@),
                final(self)@,
                NotificationType::Info,
                "Table creation cancelled"@,
            ),
    {
        proof {
            reveal(model_of);
        }
        self.close_wizard();
        self.show_info("Table creation cancelled".to_owned());
    }

    /// Goes on to the choice of a file, unless the table name is blank.
    pub fn confirm_table_name(&mut self)
        ensures
            final(self)@ == if trimmed(old(self)@.new_table_name).len() > 0 {
                StateModel {
                    table_creation_step: TableCreationStep::SelectingFile,
                    status_message: ready_text(),
                    ..old(self)@
                }
            } else {
                old(self)@
            },
    {
        proof {
            reveal(model_of);
        }
        let name = trim_text(self.new_table_name.as_str());
        if name.as_str().unicode_len() > 0 {
            self.table_creation_step = TableCreationStep::SelectingFile;
            self.set_status(ready());
        }
    }

    /// Adds a character to the table name while the wizard asks for it.
    pub fn add_char_to_table_name(&mut self, c: char)
        ensures
            final(self)@ == if old(self)@.is_creating_table && old(self)@.table_creation_step
                == TableCreationStep::EnteringTableName {
                StateModel { new_table_name: old(self)@.new_table_name.push(c), ..old(self)@ }
            } else {
                old(self)@
            },
    {
        proof {
            reveal(model_of);
        }
        if self.is_creating_table && self.table_creation_step
            == TableCreationStep::EnteringTableName {
            push_char(&mut self.new_table_name, c);
        }
    }

    /// Takes the last character off the table name while the wizard asks
    /// for it.
    pub fn remove_char_from_table_name(&mut self)
        ensures
            final(self)@ == if old(self)@.is_creating_table && old(self)@.table_creation_step
                == TableCreationStep::EnteringTableName {
                StateModel {
                    new_table_name: without_last(old(self)@.new_table_name),
                    ..old(self)@
                }
            } else {
                old(self)@
            },
    {
        proof {
            reveal(model_of);
        }
        if self.is_creating_table && self.table_creation_step
            == TableCreationStep::EnteringTableName {
            pop_char(&mut self.new_table_name);
        }
    }

    /// Moves the wizard to its last step.
    pub fn set_importing_data(&mut self)
        ensures
            final(self)@ == (StateModel {
                table_creation_step: TableCreationStep::ImportingData,
                status_message: ready_text(),
                ..old(self)@
            }),
    {
        proof {
            reveal(model_of);
        }
        self.table_creation_step = TableCreationStep::ImportingData;
        self.set_status(ready());
    }

    /// Closes the wizard after the import. On success the new table is
    /// selected and the table list takes the focus; either way a
    /// notification names the table.
    pub fn complete_table_creation(&mut self, success: bool)
        ensures
            success ==> notified(
                wizard_closed(
                    StateModel {
                        selected_table: Some(old(self)@.new_table_name),
                        active_panel: NavigationPanel::TableList,
                        ..old(self)@
                    },
                ),
                final(self)@,
                NotificationType::Success,
                "Successfully created table '"@ + old(self)@.new_table_name + "'"@,
            ),
            !success ==> notified(
                wizard_closed(old(self)@),
                final(self)@,
                NotificationType::Error,
                "Failed to create table '"@ + old(self)@.new_table_name + "'"@,
            ),
    {
        proof {
            reveal(model_of);
        }
        let table_name = self.new_table_name.clone();
        if success {
            let mut message = "Successfully created table '".to_owned();
            message.append(table_name.as_str());
            message.append("'");
            self.selected_table = Some(table_name);
            self.active_panel = NavigationPanel::TableList;
            self.close_wizard();
            self.show_success(message);
        } else {
            let mut message = "Failed to create table '".to_owned();
            message.append(table_name.as_str());
            message.append("'");
            self.close_wizard();
            self.show_error(message);
        }
    }

    /// Closes the creation wizard.
    fn close_wizard(&mut self)
        ensures
            final(self)@ == wizard_closed(old(self)@),
    {
        proof {
            reveal(model_of);
        }
        self.is_creating_table = false;
        self.current_state = AppState::DatabaseBrowser;
        self.new_table_name = String::new();
        self.table_creation_step = TableCreationStep::EnteringTableName;
        self.set_status(ready());
    }

    /// Asks for confirmation before the database is deleted.
    pub fn start_database_delete_confirmation(&mut self, database_name: String)
        ensures
            final(self)@ == (StateModel {
                delete_confirmation: DeleteConfirmationModel::Database(database_name@),
                ..old(self)@
            }),
    {
        proof {
            reveal(model_of);
        }
        self.delete_confirmation = DeleteConfirmationState::Database(database_name);
    }

    /// Asks for confirmation before the table is deleted.
    pub fn start_table_delete_confirmation(&mut self, table_name: String)
        ensures
            final(self)@ == (StateModel {
                delete_confirmation: DeleteConfirmationModel::Table(table_name@),
                ..old(self)@
            }),
    {
        proof {
            reveal(model_of);
        }
        self.delete_confirmation = DeleteConfirmationState::Table(table_name);
    }

    /// Drops the pending confirmation.
    pub fn cancel_delete_confirmation(&mut self)
        ensures
            final(self)@ == (StateModel {
                delete_confirmation: DeleteConfirmationModel::Inactive,
                ..old(self)@
            }),
    {
        proof {
            reveal(model_of);
        }
        self.delete_confirmation = DeleteConfirmationState::Inactive;
    }

    /// Whether a confirmation is pending.
    pub fn is_delete_confirmation_active(&self) -> (active: bool)
        ensures
            active == !(self@.delete_confirmation is Inactive),
    {
        proof {
            reveal(model_of);
        }
        match self.delete_confirmation {
            DeleteConfirmationState::Inactive => false,
            _ => true,
        }
    }

    /// Opens the input for the name of a new database, empty.
    pub fn start_database_name_input(&mut self)
        ensures
            final(self)@ == (StateModel {
                is_entering_database_name: true,
                new_database_name: Seq::empty(),
                ..old(self)@
            }),
    {
        proof {
            reveal(model_of);
        }
        self.is_entering_database_name = true;
        self.new_database_name = String::new();
    }

    /// Closes the input for the name of a new database.
    pub fn cancel_database_name_input(&mut self)
        ensures
            final(self)@ == (StateModel {
                is_entering_database_name: false,
                new_database_name: Seq::empty(),
                ..old(self)@
            }),
    {
        proof {
            reveal(model_of);
        }
        self.is_entering_database_name = false;
        self.new_database_name = String::new();
    }

    /// Adds a character to the database name.
    pub fn add_char_to_database_name(&mut self, c: char)
        ensures
            final(self)@ == (StateModel {
                new_database_name: old(self)@.new_database_name.push(c),
                ..old(self)@
            }),
    {
        proof {
            reveal(model_of);
        }
        push_char(&mut self.new_database_name, c);
    }

    /// Takes the last character off the database name.
    pub fn remove_char_from_database_name(&mut self)
        ensures
            final(self)@ == (StateModel {
                new_database_name: without_last(old(self)@.new_database_name),
                ..old(self)@
            }),
    {
        proof {
            reveal(model_of);
        }
        pop_char(&mut self.new_database_name);
    }

    /// Opens the input for the file to save to, empty.
    pub fn start_save_filename_input(&mut self)
        ensures
            final(self)@ == (StateModel {
                is_entering_save_filename: true,
                save_filename: Seq::empty(),
                ..old(self)@
            }),
    {
        proof {
            reveal(model_of);
        }
        self.is_entering_save_filename = true;
        self.save_filename = String::new();
    }

    /// Closes the input for the file to save to.
    pub fn cancel_save_filename_input(&mut self)
        ensures
            final(self)@ == (StateModel {
                is_entering_save_filename: false,
                save_filename: Seq::empty(),
                ..old(self)@
            }),
    {
        proof {
            reveal(model_of);
        }
        self.is_entering_save_filename = false;
        self.save_filename = String::new();
    }

    /// Adds a character to the file name.
    pub fn add_char_to_save_filename(&mut self, c: char)
        ensures
            final(self)@ == (StateModel {
                save_filename: old(self)@.save_filename.push(c),
                ..old(self)@
            }),
    {
        proof {
            reveal(model_of);
        }
        push_char(&mut self.save_filename, c);
    }

    /// Takes the last character off the file name.
    pub fn remove_char_from_save_filename(&mut self)
        ensures
            final(self)@ == (StateModel {
                save_filename: without_last(old(self)@.save_filename),
                ..old(self)@
            }),
    {
        proof {
            reveal(model_of);
        }
        pop_char(&mut self.save_filename);
    }

    /// Opens the input for the name of a view, empty.
    pub fn start_view_name_input(&mut self)
        ensures
            final(self)@ == (StateModel {
                is_entering_view_name: true,
                new_view_name: Seq::empty(),
                ..old(self)@
            }),
    {
        proof {
            reveal(model_of);
        }
        self.is_entering_view_name = true;
        self.new_view_name = String::new();
    }

    /// Closes the input for the name of a view.
    pub fn cancel_view_name_input(&mut self)
        ensures
            final(self)@ == (StateModel {
                is_entering_view_name: false,
                new_view_name: Seq::empty(),
                ..old(self)@
            }),
    {
        proof {
            reveal(model_of);
        }
        self.is_entering_view_name = false;
        self.new_view_name = String::new();
    }

    /// Adds a character to the view name.
    pub fn add_char_to_view_name(&mut self, c: char)
        ensures
            final(self)@ == (StateModel {
                new_view_name: old(self)@.new_view_name.push(c),
                ..old(self)@
            }),
    {
        proof {
            reveal(model_of);
        }
        push_char(&mut self.new_view_name, c);
    }

    /// Takes the last character off the view name.
    pub fn remove_char_from_view_name(&mut self)
        ensures
            final(self)@ == (StateModel {
                new_view_name: without_last(old(self)@.new_view_name),
                ..old(self)@
            }),
    {
        proof {
            reveal(model_of);
        }
        pop_char(&mut self.new_view_name);
    }
}

/// `text` without its last character; the empty text stays empty.
pub open spec fn without_last(text: Seq<char>) -> Seq<char> {
    if text.len() > 0 {
        text.drop_last()
    } else {
        text
    }
}

} // verus!
