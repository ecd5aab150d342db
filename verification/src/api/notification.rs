//! Notifications: sending them, with a cooldown, and reading them.
use vstd::prelude::*;

use crate::bindings::{fresh_id, is_hyphenated_v4};
use crate::error::ApiError;
use crate::flow::{
    authenticated, authenticated_user, fail, page_fits, page_in_range, page_offset, read_page, reply,
    written, write_ok, Action, Change, Event, Key, Listing, Lookup, Outcome, Reply,
};
use crate::models::{Notification, NotificationTimeout, User};

verus! {

/// The least time, in seconds, between two notifications of one type from
/// one user to another.
pub const NOTIFICATION_COOLDOWN: i64 = 3600;

/// A notification on its way.
pub struct Pending {
    pub id: String,
    pub notification_type: String,
    pub emitter: String,
    pub receiver: String,
    pub message: String,
    pub href: String,
    pub now: i64,
}

/// The timeout row that sending `n` leaves behind.
pub open spec fn timeout_row(n: Pending) -> NotificationTimeout {
    NotificationTimeout {
        notification_type: n.notification_type,
        emitter: n.emitter,
        receiver: n.receiver,
        timestamp_emitted: n.now,
    }
}

/// The notification row that sending `n` inserts.
pub open spec fn notification_row(n: Pending) -> Notification {
    Notification { id: n.id, user: n.receiver, message: n.message, href: n.href, timestamp: n.now }
}

/// Sends a notification unless one of the same type went from the same
/// emitter to the same receiver less than `NOTIFICATION_COOLDOWN` seconds ago.
pub enum PushNotification {
    AwaitTimeout { n: Pending },
    AwaitRenew { n: Pending },
    AwaitReplace { n: Pending },
    AwaitInsert,
    Done,
}

impl PushNotification {
    /// The time since the last notification can be computed in an `i64`.
    pub open spec fn admits(&self, e: &Event) -> bool {
        match self {
            PushNotification::AwaitTimeout { n } => match e {
                Event::NotificationTimeoutRow(Lookup::Found(t)) => i64::MIN <= n.now - t.timestamp_emitted <= i64::MAX,
                _ => true,
            },
            _ => true,
        }
    }

    pub fn accepts(&self, e: &Event) -> (r: bool)
        ensures
            r == self.admits(e),
    {
        match self {
            PushNotification::AwaitTimeout { n } => match e {
                Event::NotificationTimeoutRow(Lookup::Found(t)) => {
                    let d = (n.now as i128) - (t.timestamp_emitted as i128);
                    d >= i64::MIN as i128 && d <= i64::MAX as i128
                },
                _ => true,
            },
            _ => true,
        }
    }

    pub open spec fn next(self, e: Event) -> (PushNotification, Action<Result<(), ApiError>>) {
        match self {
            PushNotification::AwaitTimeout { n } => match e {
                Event::NotificationTimeoutRow(Lookup::Found(t)) => if n.now - t.timestamp_emitted < NOTIFICATION_COOLDOWN {
                    (PushNotification::Done, Action::Finish(Err(ApiError::CooldownActive)))
                } else {
                    (
                        PushNotification::AwaitRenew { n },
                        Action::Write(Change::SaveNotificationTimeout(NotificationTimeout { timestamp_emitted: n.now, ..t })),
                    )
                },
                Event::NotificationTimeoutRow(Lookup::Missing) => (
                    PushNotification::AwaitReplace { n },
                    Action::Write(Change::ReplaceNotificationTimeout(timeout_row(n))),
                ),
                _ => (PushNotification::Done, Action::Finish(Err(ApiError::InternalServer))),
            },
            PushNotification::AwaitRenew { n } => (
                PushNotification::AwaitReplace { n },
                Action::Write(Change::ReplaceNotificationTimeout(timeout_row(n))),
            ),
            PushNotification::AwaitReplace { n } => (
                PushNotification::AwaitInsert,
                Action::Write(Change::InsertNotification(notification_row(n))),
            ),
            PushNotification::AwaitInsert => match write_ok(e) {
                Ok(_) => (PushNotification::Done, Action::Finish(Ok(()))),
                Err(x) => (PushNotification::Done, Action::Finish(Err(x))),
            },
            PushNotification::Done => (PushNotification::Done, Action::Finish(Err(ApiError::InternalServer))),
        }
    }

    pub fn step(self, e: Event) -> (r: (PushNotification, Action<Result<(), ApiError>>))
        requires
            self.admits(&e),
        ensures
            r == self.next(e),
    {
        match self {
            PushNotification::AwaitTimeout { n } => match e {
                Event::NotificationTimeoutRow(Lookup::Found(mut t)) => if n.now - t.timestamp_emitted < NOTIFICATION_COOLDOWN {
                    (PushNotification::Done, Action::Finish(Err(ApiError::CooldownActive)))
                } else {
                    t.renew(n.now);
                    (PushNotification::AwaitRenew { n }, Action::Write(Change::SaveNotificationTimeout(t)))
                },
                Event::NotificationTimeoutRow(Lookup::Missing) => {
                    let row = NotificationTimeout {
                        notification_type: n.notification_type.clone(),
                        emitter: n.emitter.clone(),
                        receiver: n.receiver.clone(),
                        timestamp_emitted: n.now,
                    };
                    (PushNotification::AwaitReplace { n }, Action::Write(Change::ReplaceNotificationTimeout(row)))
                },
                _ => (PushNotification::Done, Action::Finish(Err(ApiError::InternalServer))),
            },
            PushNotification::AwaitRenew { n } => {
                let row = NotificationTimeout {
                    notification_type: n.notification_type.clone(),
                    emitter: n.emitter.clone(),
                    receiver: n.receiver.clone(),
                    timestamp_emitted: n.now,
                };
                (PushNotification::AwaitReplace { n }, Action::Write(Change::ReplaceNotificationTimeout(row)))
            },
            PushNotification::AwaitReplace { n } => {
                let row = Notification { id: n.id, user: n.receiver, message: n.message, href: n.href, timestamp: n.now };
                (PushNotification::AwaitInsert, Action::Write(Change::InsertNotification(row)))
            },
            PushNotification::AwaitInsert => match written(e) {
                Ok(_) => (PushNotification::Done, Action::Finish(Ok(()))),
                Err(x) => (PushNotification::Done, Action::Finish(Err(x))),
            },
            PushNotification::Done => (PushNotification::Done, Action::Finish(Err(ApiError::InternalServer))),
        }
    }
}

impl Notification {
    /// Starts sending a notification of `notification_type` from `emitter` to
    /// `user`, at time `now`.
    pub fn push(
        notification_type: String,
        emitter: &User,
        user: &User,
        message: String,
        href: String,
        now: i64,
    ) -> (r: (PushNotification, Action<Result<(), ApiError>>))
        ensures
            r.1 == Action::<Result<(), ApiError>>::Fetch(Key::NotificationTimeout {
                notification_type,
                emitter: emitter.username,
                receiver: user.username,
            }),
            r.0 matches PushNotification::AwaitTimeout { n } && is_hyphenated_v4(n.id@) && n == (Pending {
                id: n.id,
                notification_type,
                emitter: emitter.username,
                receiver: user.username,
                message,
                href,
                now,
            }),
    {
        Notification::push_unchecked(notification_type, emitter, user.get_username(), message, href, now)
    }

    /// Starts sending a notification of `notification_type` from `emitter` to
    /// the user named `username`, at time `now`. The notification's id is
    /// drawn now.
    pub fn push_unchecked(
        notification_type: String,
        emitter: &User,
        username: String,
        message: String,
        href: String,
        now: i64,
    ) -> (r: (PushNotification, Action<Result<(), ApiError>>))
        ensures
            r.1 == Action::<Result<(), ApiError>>::Fetch(Key::NotificationTimeout {
                notification_type,
                emitter: emitter.username,
                receiver: username,
            }),
            r.0 matches PushNotification::AwaitTimeout { n } && is_hyphenated_v4(n.id@) && n == (Pending {
                id: n.id,
                notification_type,
                emitter: emitter.username,
                receiver: username,
                message,
                href,
                now,
            }),
    {
        let n = Pending {
            id: fresh_id(),
            notification_type,
            emitter: emitter.get_username(),
            receiver: username,
            message,
            href,
            now,
        };
        let key = Key::NotificationTimeout {
            notification_type: n.notification_type.clone(),
            emitter: n.emitter.clone(),
            receiver: n.receiver.clone(),
        };
        (PushNotification::AwaitTimeout { n }, Action::Fetch(key))
    }
}

/// A notification is refused while the last one of its kind between the same
/// two users is younger than the cooldown.
pub proof fn law_cooldown_refuses(n: Pending, t: NotificationTimeout)
    requires
        n.now - t.timestamp_emitted < NOTIFICATION_COOLDOWN,
    ensures
        (PushNotification::AwaitTimeout { n }).next(Event::NotificationTimeoutRow(Lookup::Found(t))) == (
            PushNotification::Done,
            Action::<Result<(), ApiError>>::Finish(Err(ApiError::CooldownActive)),
        ),
{
}

/// A notification that goes through records when it was sent: the cooldown
/// of the next one counts from `now`.
pub proof fn law_sent_notification_restarts_cooldown(n: Pending, e: Event)
    ensures
        (PushNotification::AwaitRenew { n }).next(e).1 == Action::<Result<(), ApiError>>::Write(
            Change::ReplaceNotificationTimeout(timeout_row(n)),
        ),
        timeout_row(n).timestamp_emitted == n.now,
        timeout_row(n).emitter == n.emitter,
        timeout_row(n).receiver == n.receiver,
{
}

/// Lists one page of the requesting user's notifications, newest first.
pub enum FetchNotifications {
    AwaitUser { page: Option<String> },
    AwaitList,
    Done,
}

impl FetchNotifications {
    pub open spec fn admits(&self, e: &Event) -> bool {
        match self {
            FetchNotifications::AwaitUser { page } => e matches Event::Authenticated(Some(_)) ==> page_fits(*page),
            _ => true,
        }
    }

    pub fn accepts(&self, e: &Event) -> (r: bool)
        ensures
            r == self.admits(e),
    {
        match self {
            FetchNotifications::AwaitUser { page } => match e {
                Event::Authenticated(Some(_)) => page_in_range(page),
                _ => true,
            },
            _ => true,
        }
    }

    pub open spec fn next(self, e: Event) -> (FetchNotifications, Action<Outcome>) {
        match self {
            FetchNotifications::AwaitUser { page } => match authenticated(e) {
                Err(x) => (FetchNotifications::Done, fail(x)),
                Ok(user) => match page_offset(page) {
                    Err(x) => (FetchNotifications::Done, fail(x)),
                    Ok(offset) => (
                        FetchNotifications::AwaitList,
                        Action::List(Listing::Notifications { user: user.username, offset }),
                    ),
                },
            },
            FetchNotifications::AwaitList => match e {
                Event::Notifications(Some(v)) => (FetchNotifications::Done, reply(Reply::Notifications(v))),
                _ => (FetchNotifications::Done, fail(ApiError::InternalServer)),
            },
            FetchNotifications::Done => (FetchNotifications::Done, fail(ApiError::InternalServer)),
        }
    }

    pub fn step(self, e: Event) -> (r: (FetchNotifications, Action<Outcome>))
        requires
            self.admits(&e),
        ensures
            r == self.next(e),
    {
        match self {
            FetchNotifications::AwaitUser { page } => match authenticated_user(e) {
                Err(x) => (FetchNotifications::Done, Action::Finish(Err(x))),
                Ok(user) => match read_page(&page) {
                    Err(x) => (FetchNotifications::Done, Action::Finish(Err(x))),
                    Ok(offset) => (
                        FetchNotifications::AwaitList,
                        Action::List(Listing::Notifications { user: user.username, offset }),
                    ),
                },
            },
            FetchNotifications::AwaitList => match e {
                Event::Notifications(Some(v)) => (FetchNotifications::Done, Action::Finish(Ok(Reply::Notifications(v)))),
                _ => (FetchNotifications::Done, Action::Finish(Err(ApiError::InternalServer))),
            },
            FetchNotifications::Done => (FetchNotifications::Done, Action::Finish(Err(ApiError::InternalServer))),
        }
    }
}

pub fn fetch_notifications(page: Option<String>) -> (r: (FetchNotifications, Action<Outcome>))
    ensures
        r == (FetchNotifications::AwaitUser { page }, Action::<Outcome>::Authenticate),
{
    (FetchNotifications::AwaitUser { page }, Action::Authenticate)
}

/// The ids of the notifications to delete.
pub struct DeleteNotificaitonsData {
    pub ids: Vec<String>,
}

/// Deletes those of the given notifications that belong to the requesting
/// user; the notifications of others are left alone.
pub enum DeleteNotifications {
    AwaitUser { ids: Vec<String> },
    AwaitDelete,
    Done,
}

impl DeleteNotifications {
    pub open spec fn admits(&self, e: &Event) -> bool {
        true
    }

    pub fn accepts(&self, e: &Event) -> (r: bool)
        ensures
            r == self.admits(e),
    {
        true
    }

    pub open spec fn next(self, e: Event) -> (DeleteNotifications, Action<Outcome>) {
        match self {
            DeleteNotifications::AwaitUser { ids } => match authenticated(e) {
                Err(x) => (DeleteNotifications::Done, fail(x)),
                Ok(user) => (
                    DeleteNotifications::AwaitDelete,
                    Action::Write(Change::DeleteNotifications { user: user.username, ids }),
                ),
            },
            DeleteNotifications::AwaitDelete => match write_ok(e) {
                Ok(_) => (DeleteNotifications::Done, reply(Reply::Empty)),
                Err(x) => (DeleteNotifications::Done, fail(x)),
            },
            DeleteNotifications::Done => (DeleteNotifications::Done, fail(ApiError::InternalServer)),
        }
    }

    pub fn step(self, e: Event) -> (r: (DeleteNotifications, Action<Outcome>))
        requires
            self.admits(&e),
        ensures
            r == self.next(e),
    {
        match self {
            DeleteNotifications::AwaitUser { ids } => match authenticated_user(e) {
                Err(x) => (DeleteNotifications::Done, Action::Finish(Err(x))),
                Ok(user) => (
                    DeleteNotifications::AwaitDelete,
                    Action::Write(Change::DeleteNotifications { user: user.username, ids }),
                ),
            },
            DeleteNotifications::AwaitDelete => match written(e) {
                Ok(_) => (DeleteNotifications::Done, Action::Finish(Ok(Reply::Empty))),
                Err(x) => (DeleteNotifications::Done, Action::Finish(Err(x))),
            },
            DeleteNotifications::Done => (DeleteNotifications::Done, Action::Finish(Err(ApiError::InternalServer))),
        }
    }
}

pub fn delete_notifications(data: DeleteNotificaitonsData) -> (r: (DeleteNotifications, Action<Outcome>))
    ensures
        r == (DeleteNotifications::AwaitUser { ids: data.ids }, Action::<Outcome>::Authenticate),
{
    (DeleteNotifications::AwaitUser { ids: data.ids }, Action::Authenticate)
}

/// The notifications listed are the requesting user's, from the page's first
/// row, and they are the answer.
pub proof fn law_notifications_are_the_users(page: Option<String>, user: User, v: Vec<Notification>)
    requires
        page_fits(page),
        page_offset(page) is Ok,
    ensures
        ({
            let (s, a) = (FetchNotifications::AwaitUser { page }).next(Event::Authenticated(Some(user)));
            &&& a == Action::<Outcome>::List(Listing::Notifications { user: user.username, offset: page_offset(page)->Ok_0 })
            &&& s.next(Event::Notifications(Some(v))).1 == reply(Reply::Notifications(v))
        }),
{
}

/// Deleting notifications deletes, among the given ids, only those of the
/// requesting user.
pub proof fn law_only_own_notifications_are_deleted(ids: Vec<String>, user: User)
    ensures
        (DeleteNotifications::AwaitUser { ids }).next(Event::Authenticated(Some(user))).1 == Action::<Outcome>::Write(
            Change::DeleteNotifications { user: user.username, ids },
        ),
{
}

/// Without an earlier notification of its kind between the same two users, a
/// notification is sent: the timeout row is stamped with `now`, and the
/// notification goes to the receiver with its message, link and time.
pub proof fn law_first_notification_is_sent(n: Pending)
    ensures
        ({
            let (s1, a1) = (PushNotification::AwaitTimeout { n }).next(Event::NotificationTimeoutRow(Lookup::Missing));
            let (s2, a2) = s1.next(Event::Written(true));
            &&& a1 == Action::<Result<(), ApiError>>::Write(
                Change::ReplaceNotificationTimeout(NotificationTimeout {
                    notification_type: n.notification_type,
                    emitter: n.emitter,
                    receiver: n.receiver,
                    timestamp_emitted: n.now,
                }),
            )
            &&& a2 == Action::<Result<(), ApiError>>::Write(
                Change::InsertNotification(Notification {
                    id: n.id,
                    user: n.receiver,
                    message: n.message,
                    href: n.href,
                    timestamp: n.now,
                }),
            )
            &&& s2.next(Event::Written(true)).1 == Action::<Result<(), ApiError>>::Finish(Ok(()))
        }),
{
}

/// A notification goes out once the last one of its kind between the same
/// two users is at least an hour old, and is refused while it is younger; the
/// timeout row is then stamped with `now`.
pub proof fn law_notification_waits_an_hour(n: Pending, t: NotificationTimeout)
    requires
        i64::MIN <= n.now - t.timestamp_emitted <= i64::MAX,
    ensures
        ({
            let a = (PushNotification::AwaitTimeout { n }).next(Event::NotificationTimeoutRow(Lookup::Found(t))).1;
            &&& n.now - t.timestamp_emitted >= 3600 ==> a == Action::<Result<(), ApiError>>::Write(
                Change::SaveNotificationTimeout(NotificationTimeout { timestamp_emitted: n.now, ..t }),
            )
            &&& n.now - t.timestamp_emitted < 3600 ==> a == Action::<Result<(), ApiError>>::Finish(
                Err(ApiError::CooldownActive),
            )
        }),
{
}

} // verus!
