//! Who is asking: the session cookie of a request and the user it belongs to.
use vstd::prelude::*;

use crate::flow::{Action, Event, Key, Lookup};
use crate::models::{session_is_live, User};
use crate::text::{cookie_value, extract_cookie};

verus! {

/// The name of the cookie that carries the session id.
pub open spec fn session_cookie_name() -> Seq<char> {
    seq!['s', 'e', 's', 's', 'i', 'o', 'n', '_', 'i', 'd']
}

/// Finds the user behind the session cookie of a request. A session that
/// expires is valid for `SESSION_LIFETIME` seconds after its timestamp.
pub enum SessionCheck {
    AwaitSession { now: i64 },
    AwaitUser,
    Done,
}

impl SessionCheck {
    /// The session's age can be computed in an `i64`.
    pub open spec fn admits(&self, e: &Event) -> bool {
        match self {
            SessionCheck::AwaitSession { now } => match e {
                Event::SessionRow(Lookup::Found(s)) => match s.timestamp {
                    Some(t) => i64::MIN <= *now - t <= i64::MAX,
                    None => true,
                },
                _ => true,
            },
            _ => true,
        }
    }

    pub fn accepts(&self, e: &Event) -> (r: bool)
        ensures
            r == self.admits(e),
    {
        match self {
            SessionCheck::AwaitSession { now } => match e {
                Event::SessionRow(Lookup::Found(s)) => match s.timestamp {
                    Some(t) => {
                        let d = (*now as i128) - (t as i128);
                        d >= i64::MIN as i128 && d <= i64::MAX as i128
                    },
                    None => true,
                },
                _ => true,
            },
            _ => true,
        }
    }

    pub open spec fn next(self, e: Event) -> (SessionCheck, Action<Option<User>>) {
        match self {
            SessionCheck::AwaitSession { now } => match e {
                Event::SessionRow(Lookup::Found(s)) => if session_is_live(s.timestamp, now) {
                    (SessionCheck::AwaitUser, Action::Fetch(Key::User(s.username)))
                } else {
                    (SessionCheck::Done, Action::Finish(None))
                },
                _ => (SessionCheck::Done, Action::Finish(None)),
            },
            SessionCheck::AwaitUser => match e {
                Event::UserRow(Lookup::Found(u)) => (SessionCheck::Done, Action::Finish(Some(u))),
                _ => (SessionCheck::Done, Action::Finish(None)),
            },
            SessionCheck::Done => (SessionCheck::Done, Action::Finish(None)),
        }
    }

    pub fn step(self, e: Event) -> (r: (SessionCheck, Action<Option<User>>))
        requires
            self.admits(&e),
        ensures
            r == self.next(e),
    {
        match self {
            SessionCheck::AwaitSession { now } => match e {
                Event::SessionRow(Lookup::Found(s)) => if s.is_live(now) {
                    (SessionCheck::AwaitUser, Action::Fetch(Key::User(s.username)))
                } else {
                    (SessionCheck::Done, Action::Finish(None))
                },
                _ => (SessionCheck::Done, Action::Finish(None)),
            },
            SessionCheck::AwaitUser => match e {
                Event::UserRow(Lookup::Found(u)) => (SessionCheck::Done, Action::Finish(Some(u))),
                _ => (SessionCheck::Done, Action::Finish(None)),
            },
            SessionCheck::Done => (SessionCheck::Done, Action::Finish(None)),
        }
    }
}

/// Starts checking a request's session. `cookie_header` is the request's
/// `Cookie` header, if it has one that is valid text; `now` is the current
/// time in seconds since the epoch, if the clock can tell it. Without a
/// cookie, a `session_id` in it, or a time, nobody is authenticated.
pub fn validate_session_from_headers(cookie_header: Option<String>, now: Option<i64>) -> (r: (
    SessionCheck,
    Action<Option<User>>,
))
    ensures
        match cookie_header {
            None => r == (SessionCheck::Done, Action::<Option<User>>::Finish(None)),
            Some(jar) => match cookie_value(jar@, session_cookie_name()) {
                None => r == (SessionCheck::Done, Action::<Option<User>>::Finish(None)),
                Some(id) => match now {
                    None => r == (SessionCheck::Done, Action::<Option<User>>::Finish(None)),
                    Some(t) => r.0 == (SessionCheck::AwaitSession { now: t }) && (r.1 matches Action::Fetch(
                        Key::Session(sid),
                    ) && sid@ == id),
                },
            },
        },
{
    let jar = match cookie_header {
        Some(j) => j,
        None => {
            return (SessionCheck::Done, Action::Finish(None));
        },
    };
    let name = "session_id".to_owned();
    proof {
        reveal_strlit("session_id");
        assert(name@ =~= session_cookie_name());
    }
    let session_id = match extract_cookie(jar, name) {
        Some(id) => id,
        None => {
            return (SessionCheck::Done, Action::Finish(None));
        },
    };
    match now {
        Some(t) => (SessionCheck::AwaitSession { now: t }, Action::Fetch(Key::Session(session_id))),
        None => (SessionCheck::Done, Action::Finish(None)),
    }
}

/// A session found at time `now` lets its user in only while it is live.
pub proof fn law_expired_session_is_refused(now: i64, s: crate::models::Session)
    requires
        !session_is_live(s.timestamp, now),
    ensures
        (SessionCheck::AwaitSession { now }).next(Event::SessionRow(Lookup::Found(s))) == (
            SessionCheck::Done,
            Action::<Option<User>>::Finish(None),
        ),
{
}

/// A live session lets in the user it names: the user read is the session's
/// user, and the one found is the answer; a user that is not found lets
/// nobody in.
pub proof fn law_live_session_names_its_user(now: i64, s: crate::models::Session, u: User)
    requires
        session_is_live(s.timestamp, now),
    ensures
        ({
            let (m, a) = (SessionCheck::AwaitSession { now }).next(Event::SessionRow(Lookup::Found(s)));
            &&& a == Action::<Option<User>>::Fetch(Key::User(s.username))
            &&& m.next(Event::UserRow(Lookup::Found(u))).1 == Action::<Option<User>>::Finish(Some(u))
            &&& m.next(Event::UserRow(Lookup::Missing)).1 == Action::<Option<User>>::Finish(None)
        }),
        (SessionCheck::AwaitSession { now }).next(Event::SessionRow(Lookup::Missing)).1
            == Action::<Option<User>>::Finish(None),
{
}

/// An expiring session lets its user in for 600 seconds after its timestamp
/// and no longer; a session without a timestamp always does.
pub proof fn law_session_lasts_ten_minutes(now: i64, s: crate::models::Session)
    requires
        s.timestamp matches Some(t) ==> i64::MIN <= now - t <= i64::MAX,
    ensures
        ({
            let a = (SessionCheck::AwaitSession { now }).next(Event::SessionRow(Lookup::Found(s))).1;
            &&& (s.timestamp is None || now - s.timestamp->0 <= 600) ==> a == Action::<Option<User>>::Fetch(
                Key::User(s.username),
            )
            &&& (s.timestamp matches Some(t) && now - t > 600) ==> a == Action::<Option<User>>::Finish(None)
        }),
{
}

} // verus!
