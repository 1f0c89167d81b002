//! What happens without a key press: notifications and the flash run
//! out, and a filter that is being typed is tried out once the typing
//! pauses.

use crate::clock::elapsed_millis;
use crate::controller::moves::fetch_begun;
use crate::controller::{no_commands, App, AppModel, Command, CommandModel, Refresh};
use crate::notify::{lemma_unexpired_is_remainder, lemma_unexpired_lasts, seconds_up, unexpired};
use crate::state::filters::SEARCH_DEBOUNCE_MS;
use crate::state::{lemma_model_scalars, lemma_model_texts, ApplicationState, StateModel};
use crate::strings::{is_blank, trimmed};
use vstd::prelude::*;

verus! {

/// What the clock can do to the state between two key presses:
/// notifications leave, none comes or changes, and the flash ends or
/// stays.
pub open spec fn swept(before: StateModel, after: StateModel) -> bool {
    &&& after == (StateModel {
        notifications: after.notifications,
        panel_flash_timer: after.panel_flash_timer,
        ..before
    })
    &&& crate::notify::is_remainder_of(after.notifications, before.notifications)
    &&& (after.panel_flash_timer is None || after.panel_flash_timer == before.panel_flash_timer)
}

impl StateModel {
    /// The state with what has run out taken down, where the notification
    /// at each position has been up for the seconds at that position of
    /// `notification_secs` and the flash for `flash_ms` milliseconds.
    pub open spec fn swept_after(self, notification_secs: Seq<u64>, flash_ms: u128) -> StateModel {
        StateModel {
            notifications: unexpired(self.notifications, notification_secs),
            panel_flash_timer: if self.panel_flash_timer is Some && flash_ms
                >= self.flash_duration_ms {
                None
            } else {
                self.panel_flash_timer
            },
            ..self
        }
    }
}

/// Taking down what has run out is something that the clock can do.
pub proof fn lemma_swept_after_is_swept(s: StateModel, notification_secs: Seq<u64>, flash_ms: u128)
    ensures
        swept(s, s.swept_after(notification_secs, flash_ms)),
{
    lemma_unexpired_is_remainder(s.notifications, notification_secs);
}

/// What a look at the pause in typing does, where `due` says whether the
/// pause has been long enough. A valid filter text that is due is tried
/// out once: the wait ends and, unless the text is blank or the input has
/// no column, the table is fetched with the text as a filter.
pub open spec fn search_pause_handled(
    before: AppModel,
    due: bool,
    after: AppModel,
    commands: Seq<CommandModel>,
) -> bool {
    let s = before.state;
    &&& after == (AppModel { state: after.state, ..before })
    &&& if s.is_searching && s.search_syntax_valid && due {
        let reset = StateModel { search_debounce_timer: None, ..s };
        if trimmed(s.search_text).len() > 0 && s.search_column is Some {
            fetch_begun(reset, Refresh::Preview, after.state, commands)
        } else {
            after.state == reset && commands.len() == 0
        }
    } else {
        after.state == s && commands.len() == 0
    }
}

impl ApplicationState {
    /// Ends the wait for a pause in typing.
    pub fn stop_search_wait(&mut self)
        ensures
            final(self)@ == (StateModel { search_debounce_timer: None, ..old(self)@ }),
            old(self)@.well_formed() ==> final(self)@.well_formed(),
    {
        proof {
            reveal(crate::state::model_of);
        }
        self.search_debounce_timer = None;
    }

    /// Whether the text in the filter input can be tried out: it is not
    /// blank and the input is open for a column.
    pub fn can_preview_search(&self) -> (can: bool)
        ensures
            can == (trimmed(self@.search_text).len() > 0 && self@.search_column is Some),
    {
        proof {
            lemma_model_scalars(self);
            lemma_model_texts(self);
        }
        !is_blank(self.search_text.as_str()) && self.search_column.is_some()
    }

    /// Takes down what has run out, notifications and the flash, given
    /// the seconds that each notification has been up and the milliseconds
    /// since the flash started.
    pub fn sweep_after(&mut self, notification_secs: &Vec<u64>, flash_ms: u128)
        ensures
            final(self)@ == old(self)@.swept_after(notification_secs@, flash_ms),
            old(self)@.well_formed() ==> final(self)@.well_formed(),
    {
        self.remove_expired_after(notification_secs);
        self.update_flash_timer_after(flash_ms);
    }

    /// The seconds that each notification has been up, as the clock has
    /// them.
    fn notification_ages(&self) -> (elapsed_secs: Vec<u64>)
        ensures
            elapsed_secs.len() == self@.notifications.len(),
    {
        proof {
            reveal(crate::state::model_of);
        }
        seconds_up(&self.notifications)
    }

    /// The milliseconds since the flash started, as the clock has them.
    fn flash_age(&self) -> (elapsed_ms: u128) {
        match &self.panel_flash_timer {
            Some(start_time) => elapsed_millis(start_time),
            None => 0,
        }
    }

    /// The milliseconds since the last key press in the filter input, as
    /// the clock has them.
    fn pause_age(&self) -> (elapsed_ms: u128) {
        match &self.search_debounce_timer {
            Some(timer) => elapsed_millis(timer),
            None => 0,
        }
    }
}

impl App {
    /// Looks at the pause in typing, given whether it has been long
    /// enough.
    pub fn search_pause_checked(&mut self, due: bool) -> (commands: Vec<Command>)
        ensures
            search_pause_handled(old(self)@, due, final(self)@, commands.deep_view()),
            old(self)@.state.well_formed() ==> final(self)@.state.well_formed(),
    {
        proof {
            lemma_model_scalars(&self.state);
        }
        if self.state.is_searching && self.state.search_syntax_valid && due {
            let preview = self.state.can_preview_search();
            self.state.stop_search_wait();
            if preview {
                self.begin_fetch(Refresh::Preview)
            } else {
                no_commands()
            }
        } else {
            no_commands()
        }
    }

    /// Looks at the pause in typing by the clock. Whether the pause has
    /// been long enough is the clock's to say; while no key press is
    /// waited on it never has, and nothing happens.
    pub fn check_search_debounce(&mut self) -> (commands: Vec<Command>)
        ensures
            search_pause_handled(old(self)@, true, final(self)@, commands.deep_view())
                || search_pause_handled(old(self)@, false, final(self)@, commands.deep_view()),
            old(self)@.state.search_debounce_timer is None ==> final(self)@ == old(self)@
                && commands.deep_view().len() == 0,
            old(self)@.state.well_formed() ==> final(self)@.state.well_formed(),
    {
        let due = self.state.should_debounce_update();
        self.search_pause_checked(due)
    }

    /// One turn of the loop, given what the clocks read: the seconds that
    /// each notification has been up, the milliseconds since the flash
    /// started, and the milliseconds since the last key press in the
    /// filter input. What has run out is taken down, and the filter that is
    /// being typed is tried out where the pause has lasted long enough.
    pub fn tick_after(&mut self, notification_secs: &Vec<u64>, flash_ms: u128, pause_ms: u128) -> (commands:
        Vec<Command>)
        ensures
            search_pause_handled(
                AppModel {
                    state: old(self)@.state.swept_after(notification_secs@, flash_ms),
                    ..old(self)@
                },
                old(self)@.state.search_debounce_timer is Some && pause_ms >= SEARCH_DEBOUNCE_MS,
                final(self)@,
                commands.deep_view(),
            ),
            old(self)@.state.well_formed() ==> final(self)@.state.well_formed(),
    {
        self.state.sweep_after(notification_secs, flash_ms);
        let due = self.state.should_debounce_update_after(pause_ms);
        self.search_pause_checked(due)
    }

    /// Runs once for each turn of the loop, key press or not: what has run
    /// out is taken down, and the pause in typing is looked at.
    pub fn update_notifications(&mut self) -> (commands: Vec<Command>)
        ensures
            exists|cleared: StateModel|
                #![auto]
                swept(old(self)@.state, cleared) && (search_pause_handled(
                    AppModel { state: cleared, ..old(self)@ },
                    true,
                    final(self)@,
                    commands.deep_view(),
                ) || search_pause_handled(
                    AppModel { state: cleared, ..old(self)@ },
                    false,
                    final(self)@,
                    commands.deep_view(),
                )),
            old(self)@.state.search_debounce_timer is None ==> swept(
                old(self)@.state,
                final(self)@.state,
            ) && commands.deep_view().len() == 0,
            old(self)@.state.flash_duration_ms == 0 ==> final(self)@.state.panel_flash_timer is None,
            forall|i: int|
                0 <= i < final(self)@.state.notifications.len() ==> (
                #[trigger] final(self)@.state.notifications[i]).duration_secs > 0,
            old(self)@.state.well_formed() ==> final(self)@.state.well_formed(),
    {
        let notification_secs = self.state.notification_ages();
        let flash_ms = self.state.flash_age();
        let pause_ms = self.state.pause_age();
        proof {
            lemma_swept_after_is_swept(self@.state, notification_secs@, flash_ms);
            lemma_unexpired_lasts(self@.state.notifications, notification_secs@);
        }
        self.tick_after(&notification_secs, flash_ms, pause_ms)
    }
}

} // verus!
