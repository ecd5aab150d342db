//! Logging in and out.
use vstd::prelude::*;

use crate::bindings::{bcrypt_verdict, fresh_id, is_hyphenated_v4};
use crate::create_account::CreateAccount;
use crate::error::ApiError;
use crate::flow::{fail, reply, Action, Change, Event, Lookup, Outcome, Reply};
use crate::models::{new_session_row, Session};
use crate::session::session_cookie_name;
use crate::text::{cookie_value, extract_cookie};

verus! {

pub struct LoginCredentials {
    pub username: String,
    pub password: String,
    /// Whether the session expires after a while of inactivity.
    pub expires: bool,
}

/// Opens a session for a user whose password checks out.
pub enum Login {
    AwaitUser { password: String, expires: bool, now: i64, session_id: String },
    AwaitInsert { session_id: String },
    Done,
}

impl Login {
    pub open spec fn admits(&self, e: &Event) -> bool {
        true
    }

    pub fn accepts(&self, e: &Event) -> (r: bool)
        ensures
            r == self.admits(e),
    {
        true
    }

    pub open spec fn next(self, e: Event) -> (Login, Action<Outcome>) {
        match self {
            Login::AwaitUser { password, expires, now, session_id } => match e {
                Event::UserRow(Lookup::Found(user)) => match bcrypt_verdict(password@, user.password@) {
                    None => (Login::Done, fail(ApiError::InternalServer)),
                    Some(false) => (Login::Done, fail(ApiError::InvalidPassword)),
                    Some(true) => (
                        Login::AwaitInsert { session_id },
                        Action::Write(Change::InsertSession(new_session_row(session_id, user.username, expires, now))),
                    ),
                },
                _ => (Login::Done, fail(ApiError::InternalServer)),
            },
            Login::AwaitInsert { session_id } => (Login::Done, reply(Reply::SessionId(session_id))),
            Login::Done => (Login::Done, fail(ApiError::InternalServer)),
        }
    }

    pub fn step(self, e: Event) -> (r: (Login, Action<Outcome>))
        requires
            self.admits(&e),
        ensures
            r == self.next(e),
    {
        match self {
            Login::AwaitUser { password, expires, now, session_id } => match e {
                Event::UserRow(Lookup::Found(user)) => match user.verify_password(password) {
                    Err(_) => (Login::Done, Action::Finish(Err(ApiError::InternalServer))),
                    Ok(false) => (Login::Done, Action::Finish(Err(ApiError::InvalidPassword))),
                    Ok(true) => {
                        let id = session_id.clone();
                        let session = Session::with_id(session_id, user.username, expires, now);
                        (Login::AwaitInsert { session_id: id }, Action::Write(Change::InsertSession(session)))
                    },
                },
                _ => (Login::Done, Action::Finish(Err(ApiError::InternalServer))),
            },
            Login::AwaitInsert { session_id } => (Login::Done, Action::Finish(Ok(Reply::SessionId(session_id)))),
            Login::Done => (Login::Done, Action::Finish(Err(ApiError::InternalServer))),
        }
    }
}

/// Starts a login at time `now`: looks the user up. The id of the session to
/// open is drawn now.
pub fn login(login_credentials: LoginCredentials, now: i64) -> (r: (Login, Action<Outcome>))
    ensures
        r.1 == Action::<Outcome>::Fetch(crate::flow::Key::User(login_credentials.username)),
        r.0 matches Login::AwaitUser { password, expires, now: t, session_id } && password
            == login_credentials.password && expires == login_credentials.expires && t == now
            && is_hyphenated_v4(session_id@),
{
    (
        Login::AwaitUser {
            password: login_credentials.password,
            expires: login_credentials.expires,
            now,
            session_id: fresh_id(),
        },
        Action::Fetch(crate::flow::Key::User(login_credentials.username)),
    )
}

/// A login is refused unless the stored hash verifies the password.
pub proof fn law_wrong_password_is_refused(password: String, expires: bool, now: i64, session_id: String, user: crate::models::User)
    requires
        bcrypt_verdict(password@, user.password@) != Some(true),
    ensures
        (Login::AwaitUser { password, expires, now, session_id }).next(Event::UserRow(Lookup::Found(user))).1 matches Action::Finish(Err(_)),
{
}

/// Ends the session named by the request's cookie.
pub enum Logout {
    AwaitDelete,
    Done,
}

impl Logout {
    pub open spec fn admits(&self, e: &Event) -> bool {
        true
    }

    pub fn accepts(&self, e: &Event) -> (r: bool)
        ensures
            r == self.admits(e),
    {
        true
    }

    pub open spec fn next(self, e: Event) -> (Logout, Action<Outcome>) {
        match self {
            Logout::AwaitDelete => (Logout::Done, reply(Reply::Empty)),
            Logout::Done => (Logout::Done, fail(ApiError::InternalServer)),
        }
    }

    pub fn step(self, e: Event) -> (r: (Logout, Action<Outcome>))
        requires
            self.admits(&e),
        ensures
            r == self.next(e),
    {
        match self {
            Logout::AwaitDelete => (Logout::Done, Action::Finish(Ok(Reply::Empty))),
            Logout::Done => (Logout::Done, Action::Finish(Err(ApiError::InternalServer))),
        }
    }
}

/// Starts a logout: the session named by the `session_id` cookie is deleted;
/// a request without that cookie is refused.
pub fn logout(cookie_header: Option<String>) -> (r: (Logout, Action<Outcome>))
    ensures
        match cookie_header {
            None => r == (Logout::Done, fail(ApiError::InvalidSession)),
            Some(jar) => match cookie_value(jar@, session_cookie_name()) {
                None => r == (Logout::Done, fail(ApiError::InvalidSession)),
                Some(id) => r.0 == Logout::AwaitDelete && (r.1 matches Action::Write(Change::DeleteSession(sid)) && sid@ == id),
            },
        },
{
    let jar = match cookie_header {
        Some(j) => j,
        None => {
            return (Logout::Done, Action::Finish(Err(ApiError::InvalidSession)));
        },
    };
    let name = "session_id".to_owned();
    proof {
        reveal_strlit("session_id");
        assert(name@ =~= session_cookie_name());
    }
    match extract_cookie(jar, name) {
        Some(id) => (Logout::AwaitDelete, Action::Write(Change::DeleteSession(id))),
        None => (Logout::Done, Action::Finish(Err(ApiError::InvalidSession))),
    }
}

/// A new account can be logged into with the password it was created with:
/// logging in with it opens a session for the new user.
pub proof fn law_new_account_can_log_in(
    key: String,
    username: String,
    password: String,
    now: i64,
    session_id: String,
    e: Event,
    r: (CreateAccount, Action<Outcome>),
    expires: bool,
    later: i64,
    login_id: String,
)
    requires
        (CreateAccount::AwaitUser { key, username, password, now, session_id }).steps_to(e, r),
    ensures
        r.1 matches Action::Write(Change::InsertUser(u)) ==> (Login::AwaitUser {
            password,
            expires,
            now: later,
            session_id: login_id,
        }).next(Event::UserRow(Lookup::Found(u))) == (
            Login::AwaitInsert { session_id: login_id },
            Action::<Outcome>::Write(Change::InsertSession(new_session_row(login_id, username, expires, later))),
        ),
{
}

/// A login whose password checks out opens a session for the user that was
/// read, with the id drawn at the start, expiring from `now` when asked to,
/// and answers with that id; a password that does not check out is
/// `InvalidPassword`, and a user that is not found an internal error.
pub proof fn law_login_opens_a_session_for_the_user(
    password: String,
    expires: bool,
    now: i64,
    session_id: String,
    user: crate::models::User,
    e: Event,
)
    ensures
        ({
            let (s, a) = (Login::AwaitUser { password, expires, now, session_id }).next(Event::UserRow(Lookup::Found(user)));
            &&& bcrypt_verdict(password@, user.password@) == Some(true) ==> a == Action::<Outcome>::Write(
                Change::InsertSession(Session {
                    id: session_id,
                    username: user.username,
                    timestamp: if expires { Some(now) } else { None },
                }),
            ) && s.next(e).1 == reply(Reply::SessionId(session_id))
            &&& bcrypt_verdict(password@, user.password@) == Some(false) ==> a == fail(ApiError::InvalidPassword)
        }),
        (Login::AwaitUser { password, expires, now, session_id }).next(Event::UserRow(Lookup::Missing)).1 == fail(
            ApiError::InternalServer,
        ),
{
}

} // verus!
