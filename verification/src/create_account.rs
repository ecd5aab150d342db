//! Creating an account with a single-use account creation key.
use vstd::prelude::*;

use crate::bindings::{bcrypt_hash, bcrypt_prefix, bcrypt_verdict, fresh_id, is_hyphenated_v4};
use crate::error::ApiError;
use crate::flow::{fail, reply, Action, Change, Event, Key, Lookup, Outcome, Reply};
use crate::models::{new_session_row, Session, User};
use crate::text::{contains_forbidden_username_char, has_forbidden_username_char};

verus! {

pub struct AccountCreationCredentials {
    pub key: String,
    pub username: String,
    pub password: String,
}

/// The bcrypt cost that new passwords are hashed with.
pub const PASSWORD_HASH_COST: u32 = 4;

/// Creates an account. The username may not hold `/`, `\`, a space or `@`;
/// the key must exist and be unused; the username must be free. The new
/// user's public name is the username and the biography is empty. The key is
/// marked used and an expiring session is opened for the new user.
pub enum CreateAccount {
    AwaitKey { key: String, username: String, password: String, now: i64, session_id: String },
    AwaitUser { key: String, username: String, password: String, now: i64, session_id: String },
    AwaitUserInsert { key: String, username: String, now: i64, session_id: String },
    AwaitKeyUpdate { username: String, now: i64, session_id: String },
    AwaitSessionInsert { session_id: String },
    Done,
}

/// `u` is the user row that an account creation inserts for `username`: its
/// password is a bcrypt hash of cost `PASSWORD_HASH_COST`, its public name is
/// the username, its biography empty, its counters zero.
pub open spec fn is_new_account_row(u: User, username: String) -> bool {
    &&& u.username == username
    &&& u.password@.len() == 60
    &&& u.password@.take(7) == bcrypt_prefix(PASSWORD_HASH_COST)
    &&& u.public_name == username
    &&& u.biography@.len() == 0
    &&& u.followers == 0
    &&& u.followed == 0
}

impl CreateAccount {
    pub open spec fn admits(&self, e: &Event) -> bool {
        true
    }

    pub fn accepts(&self, e: &Event) -> (r: bool)
        ensures
            r == self.admits(e),
    {
        true
    }

    /// Whether `r` is a step that the machine may take from `self` on `e`. All
    /// steps but the hashing of the password are determined; the hash is drawn
    /// with a random salt, and only its verifying the password is known.
    pub open spec fn steps_to(self, e: Event, r: (CreateAccount, Action<Outcome>)) -> bool {
        match self {
            CreateAccount::AwaitKey { key, username, password, now, session_id } => match e {
                Event::AccountKeyRow(Lookup::Found(k)) => if k.used {
                    r == (CreateAccount::Done, fail(ApiError::InvalidKey))
                } else {
                    r == (
                        CreateAccount::AwaitUser { key, username, password, now, session_id },
                        Action::<Outcome>::Fetch(Key::User(username)),
                    )
                },
                Event::AccountKeyRow(Lookup::Missing) => r == (CreateAccount::Done, fail(ApiError::InvalidKey)),
                _ => r == (CreateAccount::Done, fail(ApiError::InternalServer)),
            },
            CreateAccount::AwaitUser { key, username, password, now, session_id } => match e {
                Event::UserRow(Lookup::Found(_)) => r == (CreateAccount::Done, fail(ApiError::UserAlreadyExists)),
                Event::UserRow(_) => {
                    ||| r == (CreateAccount::Done, fail(ApiError::InternalServer))
                    ||| (r.0 == (CreateAccount::AwaitUserInsert { key, username, now, session_id }) && (r.1 matches Action::Write(
                        Change::InsertUser(u),
                    ) && is_new_account_row(u, username) && bcrypt_verdict(password@, u.password@) == Some(true)))
                },
                _ => r == (CreateAccount::Done, fail(ApiError::InternalServer)),
            },
            CreateAccount::AwaitUserInsert { key, username, now, session_id } => r == (
                CreateAccount::AwaitKeyUpdate { username, now, session_id },
                Action::<Outcome>::Write(Change::MarkKeyUsed(key)),
            ),
            CreateAccount::AwaitKeyUpdate { username, now, session_id } => r == (
                CreateAccount::AwaitSessionInsert { session_id },
                Action::<Outcome>::Write(Change::InsertSession(new_session_row(session_id, username, true, now))),
            ),
            CreateAccount::AwaitSessionInsert { session_id } => r == (CreateAccount::Done, reply(Reply::SessionId(session_id))),
            CreateAccount::Done => r == (CreateAccount::Done, fail(ApiError::InternalServer)),
        }
    }

    pub fn step(self, e: Event) -> (r: (CreateAccount, Action<Outcome>))
        requires
            self.admits(&e),
        ensures
            self.steps_to(e, r),
    {
        match self {
            CreateAccount::AwaitKey { key, username, password, now, session_id } => match e {
                Event::AccountKeyRow(Lookup::Found(k)) => if k.is_used() {
                    (CreateAccount::Done, Action::Finish(Err(ApiError::InvalidKey)))
                } else {
                    let name = username.clone();
                    (CreateAccount::AwaitUser { key, username, password, now, session_id }, Action::Fetch(Key::User(name)))
                },
                Event::AccountKeyRow(Lookup::Missing) => (CreateAccount::Done, Action::Finish(Err(ApiError::InvalidKey))),
                _ => (CreateAccount::Done, Action::Finish(Err(ApiError::InternalServer))),
            },
            CreateAccount::AwaitUser { key, username, password, now, session_id } => match e {
                Event::UserRow(Lookup::Found(_)) => (CreateAccount::Done, Action::Finish(Err(ApiError::UserAlreadyExists))),
                Event::UserRow(_) => match bcrypt_hash(password, PASSWORD_HASH_COST) {
                    Err(_) => (CreateAccount::Done, Action::Finish(Err(ApiError::InternalServer))),
                    Ok(hash) => {
                        let user = User::new(username.clone(), hash, username.clone(), String::new());
                        (
                            CreateAccount::AwaitUserInsert { key, username, now, session_id },
                            Action::Write(Change::InsertUser(user)),
                        )
                    },
                },
                _ => (CreateAccount::Done, Action::Finish(Err(ApiError::InternalServer))),
            },
            CreateAccount::AwaitUserInsert { key, username, now, session_id } => (
                CreateAccount::AwaitKeyUpdate { username, now, session_id },
                Action::Write(Change::MarkKeyUsed(key)),
            ),
            CreateAccount::AwaitKeyUpdate { username, now, session_id } => {
                let id = session_id.clone();
                let session = Session::with_id(session_id, username, true, now);
                (CreateAccount::AwaitSessionInsert { session_id: id }, Action::Write(Change::InsertSession(session)))
            },
            CreateAccount::AwaitSessionInsert { session_id } => (
                CreateAccount::Done,
                Action::Finish(Ok(Reply::SessionId(session_id))),
            ),
            CreateAccount::Done => (CreateAccount::Done, Action::Finish(Err(ApiError::InternalServer))),
        }
    }
}

/// Starts creating an account at time `now`: a username with a forbidden
/// character is refused at once, else the key is looked up. The id of the
/// session to open is drawn now.
pub fn create_account(credentials: AccountCreationCredentials, now: i64) -> (r: (CreateAccount, Action<Outcome>))
    ensures
        has_forbidden_username_char(credentials.username@) ==> r == (CreateAccount::Done, fail(ApiError::InvalidUsername)),
        !has_forbidden_username_char(credentials.username@) ==> {
            &&& r.1 == Action::<Outcome>::Fetch(Key::AccountKey(credentials.key))
            &&& r.0 matches CreateAccount::AwaitKey { key, username, password, now: t, session_id }
            &&& key == credentials.key
            &&& username == credentials.username
            &&& password == credentials.password
            &&& t == now
            &&& is_hyphenated_v4(session_id@)
        },
{
    if contains_forbidden_username_char(credentials.username.as_str()) {
        return (CreateAccount::Done, Action::Finish(Err(ApiError::InvalidUsername)));
    }
    let k = credentials.key.clone();
    (
        CreateAccount::AwaitKey {
            key: credentials.key,
            username: credentials.username,
            password: credentials.password,
            now,
            session_id: fresh_id(),
        },
        Action::Fetch(Key::AccountKey(k)),
    )
}

/// A key is good for one account: once used, it is refused.
pub proof fn law_used_key_is_refused(
    key: String,
    username: String,
    password: String,
    now: i64,
    session_id: String,
    k: crate::models::AccountKey,
    r: (CreateAccount, Action<Outcome>),
)
    requires
        k.used,
        (CreateAccount::AwaitKey { key, username, password, now, session_id }).steps_to(Event::AccountKeyRow(Lookup::Found(k)), r),
    ensures
        r.1 == fail(ApiError::InvalidKey),
{
}

/// A new account's stored password hash verifies the password it was created
/// with, so that the account's owner can log in with it.
pub proof fn law_new_account_accepts_its_password(
    key: String,
    username: String,
    password: String,
    now: i64,
    session_id: String,
    e: Event,
    r: (CreateAccount, Action<Outcome>),
)
    requires
        (CreateAccount::AwaitUser { key, username, password, now, session_id }).steps_to(e, r),
    ensures
        r.1 matches Action::Write(Change::InsertUser(u)) ==> u.username == username
            && bcrypt_verdict(password@, u.password@) == Some(true),
{
}

/// Creating an account consumes its key: after the user is inserted, the key
/// is marked used.
pub proof fn law_account_creation_marks_key_used(key: String, username: String, now: i64, session_id: String, e: Event, r: (CreateAccount, Action<Outcome>))
    requires
        (CreateAccount::AwaitUserInsert { key, username, now, session_id }).steps_to(e, r),
    ensures
        r.1 == Action::<Outcome>::Write(Change::MarkKeyUsed(key)),
{
}

/// Once the new user is inserted and the key marked used, an expiring session
/// from `now` is opened for the new user under the id drawn at the start, and
/// that id is the answer. A key that is not found is `InvalidKey`.
pub proof fn law_new_account_gets_a_session(
    key: String,
    password: String,
    username: String,
    now: i64,
    session_id: String,
    e: Event,
    r1: (CreateAccount, Action<Outcome>),
    r2: (CreateAccount, Action<Outcome>),
    r3: (CreateAccount, Action<Outcome>),
)
    requires
        (CreateAccount::AwaitKeyUpdate { username, now, session_id }).steps_to(e, r1),
        r1.0.steps_to(e, r2),
        (CreateAccount::AwaitKey { key, username, password, now, session_id }).steps_to(
            Event::AccountKeyRow(Lookup::Missing),
            r3,
        ),
    ensures
        r1.1 == Action::<Outcome>::Write(Change::InsertSession(Session { id: session_id, username, timestamp: Some(now) })),
        r2.1 == reply(Reply::SessionId(session_id)),
        r3.1 == fail(ApiError::InvalidKey),
{
}

/// The user that an account creation inserts has the requested username as
/// its name and public name, an empty biography, no followers and follows
/// none, and its stored hash verifies the password it was created with.
pub proof fn law_new_user_row(
    key: String,
    username: String,
    password: String,
    now: i64,
    session_id: String,
    e: Event,
    r: (CreateAccount, Action<Outcome>),
)
    requires
        (CreateAccount::AwaitUser { key, username, password, now, session_id }).steps_to(e, r),
    ensures
        r.1 matches Action::Write(Change::InsertUser(u)) ==> {
            &&& u.username == username
            &&& u.public_name == username
            &&& u.biography@ == Seq::<char>::empty()
            &&& u.followers == 0
            &&& u.followed == 0
            &&& bcrypt_verdict(password@, u.password@) == Some(true)
        },
        e matches Event::UserRow(Lookup::Found(_)) ==> r == (CreateAccount::Done, fail(ApiError::UserAlreadyExists)),
{
}

/// A username is refused exactly when it holds a slash, a backslash, a space
/// or an `@`.
pub proof fn law_forbidden_username_characters(s: Seq<char>)
    ensures
        has_forbidden_username_char(s) <==> exists|i: int|
            0 <= i < s.len() && (s[i] == '/' || s[i] == '\\' || s[i] == ' ' || s[i] == '@'),
{
}

} // verus!
