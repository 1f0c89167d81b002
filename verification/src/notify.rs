//! Transient notifications: a message, its category and how long it stays.

use crate::clock::{elapsed_secs, now, span_is_over};
use std::time::Instant;
use vstd::prelude::*;

verus! {

#[derive(Debug, Clone, Copy, PartialEq, Eq, Structural)]
pub enum NotificationType {
    Success,
    Error,
    Info,
}

#[derive(Debug, Clone)]
pub struct Notification {
    pub message: String,
    pub notification_type: NotificationType,
    pub timestamp: Instant,
    pub duration_secs: u64,
}

/// A notification as contracts see it.
pub ghost struct NotificationModel {
    pub message: Seq<char>,
    pub notification_type: NotificationType,
    pub timestamp: Instant,
    pub duration_secs: u64,
}

impl DeepView for Notification {
    type V = NotificationModel;

    open spec fn deep_view(&self) -> NotificationModel {
        NotificationModel {
            message: self.message@,
            notification_type: self.notification_type,
            timestamp: self.timestamp,
            duration_secs: self.duration_secs,
        }
    }
}

/// `part` is what is left of `whole` when some of its members are taken
/// out: the same members in the same order.
pub open spec fn is_remainder_of<A>(part: Seq<A>, whole: Seq<A>) -> bool
    decreases whole.len(),
{
    if part.len() == 0 {
        true
    } else if whole.len() == 0 {
        false
    } else if part.last() == whole.last() && is_remainder_of(
        part.drop_last(),
        whole.drop_last(),
    ) {
        true
    } else {
        is_remainder_of(part, whole.drop_last())
    }
}

/// What is left is no longer than the whole, and every member of it is a
/// member of the whole.
pub proof fn lemma_remainder_is_within<A>(part: Seq<A>, whole: Seq<A>)
    requires
        is_remainder_of(part, whole),
    ensures
        part.len() <= whole.len(),
        forall|i: int| 0 <= i < part.len() ==> whole.contains(#[trigger] part[i]),
    decreases whole.len(),
{
    if part.len() > 0 && whole.len() > 0 {
        let front = whole.drop_last();
        if part.last() == whole.last() && is_remainder_of(part.drop_last(), front) {
            lemma_remainder_is_within(part.drop_last(), front);
            assert forall|i: int| 0 <= i < part.len() implies whole.contains(
                #[trigger] part[i],
            ) by {
                if i < part.len() - 1 {
                    assert(part.drop_last()[i] == part[i]);
                    let k = choose|k: int| 0 <= k < front.len() && front[k] == part[i];
                    assert(whole[k] == part[i]);
                } else {
                    assert(whole[whole.len() - 1] == part[i]);
                }
            }
        } else {
            lemma_remainder_is_within(part, front);
            assert forall|i: int| 0 <= i < part.len() implies whole.contains(
                #[trigger] part[i],
            ) by {
                let k = choose|k: int| 0 <= k < front.len() && front[k] == part[i];
                assert(whole[k] == part[i]);
            }
        }
    }
}

/// The notifications that stay up when the one at each position has been
/// up for the seconds at that position of `elapsed`: those that have not
/// yet lasted their duration, in their order. One without a reading stays.
pub open spec fn unexpired(notifications: Seq<NotificationModel>, elapsed: Seq<u64>) -> Seq<
    NotificationModel,
>
    decreases notifications.len(),
{
    if notifications.len() == 0 {
        Seq::empty()
    } else {
        let front = unexpired(notifications.drop_last(), elapsed);
        let position = notifications.len() - 1;
        if position < elapsed.len() && elapsed[position] >= notifications.last().duration_secs {
            front
        } else {
            front.push(notifications.last())
        }
    }
}

/// What stays up is a remainder of what was up.
pub proof fn lemma_unexpired_is_remainder(notifications: Seq<NotificationModel>, elapsed: Seq<u64>)
    ensures
        is_remainder_of(unexpired(notifications, elapsed), notifications),
    decreases notifications.len(),
{
    if notifications.len() > 0 {
        let front = unexpired(notifications.drop_last(), elapsed);
        lemma_unexpired_is_remainder(notifications.drop_last(), elapsed);
        let rest = unexpired(notifications, elapsed);
        if rest.len() > front.len() {
            assert(rest.drop_last() =~= front);
        }
    }
}

/// Where every notification has a reading, none that lasts no time stays
/// up.
pub proof fn lemma_unexpired_lasts(notifications: Seq<NotificationModel>, elapsed: Seq<u64>)
    requires
        notifications.len() <= elapsed.len(),
    ensures
        forall|i: int|
            0 <= i < unexpired(notifications, elapsed).len() ==> (#[trigger] unexpired(
                notifications,
                elapsed,
            )[i]).duration_secs > 0,
    decreases notifications.len(),
{
    if notifications.len() > 0 {
        lemma_unexpired_lasts(notifications.drop_last(), elapsed);
    }
}

/// Seconds that a success or an info notification stays.
pub const SHORT_NOTIFICATION_SECS: u64 = 3;

/// Seconds that an error notification stays.
pub const ERROR_NOTIFICATION_SECS: u64 = 5;

impl Notification {
    /// A success notification, stamped with the present instant.
    pub fn success(message: String) -> (n: Self)
        ensures
            n.message@ == message@,
            n.notification_type == NotificationType::Success,
            n.duration_secs == SHORT_NOTIFICATION_SECS,
    {
        Self {
            message,
            notification_type: NotificationType::Success,
            timestamp: now(),
            duration_secs: SHORT_NOTIFICATION_SECS,
        }
    }

    /// An error notification, stamped with the present instant. Errors stay
    /// longer than the other two categories.
    pub fn error(message: String) -> (n: Self)
        ensures
            n.message@ == message@,
            n.notification_type == NotificationType::Error,
            n.duration_secs == ERROR_NOTIFICATION_SECS,
    {
        Self {
            message,
            notification_type: NotificationType::Error,
            timestamp: now(),
            duration_secs: ERROR_NOTIFICATION_SECS,
        }
    }

    /// An info notification, stamped with the present instant.
    pub fn info(message: String) -> (n: Self)
        ensures
            n.message@ == message@,
            n.notification_type == NotificationType::Info,
            n.duration_secs == SHORT_NOTIFICATION_SECS,
    {
        Self {
            message,
            notification_type: NotificationType::Info,
            timestamp: now(),
            duration_secs: SHORT_NOTIFICATION_SECS,
        }
    }

    /// Whether the notification has been up for its whole duration, given
    /// the seconds since it was made.
    pub fn is_expired_after(&self, elapsed_secs: u64) -> (expired: bool)
        ensures
            expired == (elapsed_secs >= self.duration_secs),
    {
        span_is_over(elapsed_secs as u128, self.duration_secs)
    }

    /// Whether the notification has been up for its whole duration by now.
    /// One whose duration is zero is expired at once.
    pub fn is_expired(&self) -> (expired: bool)
        ensures
            self.duration_secs == 0 ==> expired,
    {
        self.is_expired_after(elapsed_secs(&self.timestamp))
    }
}

/// The seconds that each of `notifications` has been up by now, as the
/// clock has them.
pub(crate) fn seconds_up(notifications: &Vec<Notification>) -> (elapsed: Vec<u64>)
    ensures
        elapsed.len() == notifications.len(),
{
    let mut elapsed: Vec<u64> = Vec::new();
    let mut i: usize = 0;
    while i < notifications.len()
        invariant
            i <= notifications.len(),
            elapsed.len() == i,
        decreases notifications.len() - i,
    {
        elapsed.push(elapsed_secs(&notifications[i].timestamp));
        i += 1;
    }
    elapsed
}

/// Takes out of `notifications` those that have lasted their duration,
/// given the seconds that each has been up.
pub fn remove_expired_after(notifications: &mut Vec<Notification>, elapsed_secs: &Vec<u64>)
    ensures
        final(notifications).deep_view() == unexpired(
            old(notifications).deep_view(),
            elapsed_secs@,
        ),
{
    let ghost before = notifications.deep_view();
    let mut i: usize = 0;
    let mut j: usize = 0;
    proof {
        assert(before.len() == notifications.len());
        assert(before.take(0) =~= Seq::empty());
        assert(notifications.deep_view().take(0) =~= Seq::empty());
        assert(notifications.deep_view().skip(0) =~= before.skip(0));
    }
    while i < notifications.len()
        invariant
            i <= notifications.len(),
            i <= j <= before.len() <= usize::MAX,
            notifications.len() - i == before.len() - j,
            notifications.deep_view().skip(i as int) == before.skip(j as int),
            notifications.deep_view().take(i as int) == unexpired(
                before.take(j as int),
                elapsed_secs@,
            ),
        decreases notifications.len() - i,
    {
        let ghost current = notifications.deep_view();
        let ghost kept = current.take(i as int);
        proof {
            assert(current[i as int] == current.skip(i as int)[0]);
            assert(before[j as int] == before.skip(j as int)[0]);
            assert(before.skip(j + 1) =~= before.skip(j as int).skip(1));
            assert(before.take(j + 1).drop_last() =~= before.take(j as int));
            assert(before.take(j + 1).last() == before[j as int]);
        }
        let expired = j < elapsed_secs.len() && notifications[i].is_expired_after(elapsed_secs[j]);
        if expired {
            notifications.remove(i);
            proof {
                assert(notifications.deep_view() =~= current.remove(i as int));
                assert(notifications.deep_view().skip(i as int) =~= current.skip(i as int).skip(1));
                assert(notifications.deep_view().take(i as int) =~= kept);
            }
        } else {
            proof {
                assert(current.skip(i + 1) =~= current.skip(i as int).skip(1));
                assert(current.take(i + 1) =~= kept.push(before[j as int]));
            }
            i += 1;
        }
        j += 1;
    }
    proof {
        assert(notifications.deep_view().take(i as int) =~= notifications.deep_view());
        assert(before.take(j as int) =~= before);
    }
}

} // verus!
