//! The rows of the database, as plain values.
use vstd::prelude::*;

use crate::api::room::RoomCreationData;
use crate::bindings::{bcrypt_verdict, bcrypt_verify, fresh_id, is_hyphenated_v4};
use crate::error::ApiError;
use crate::text::byte_len;

verus! {

/// A copy of an optional string, equal to it.
pub fn copy_opt(s: &Option<String>) -> (r: Option<String>)
    ensures
        r == *s,
{
    match s {
        Some(v) => Some(v.clone()),
        None => None,
    }
}

/// A single-use key that allows one account to be created.
pub struct AccountKey {
    pub key: String,
    pub used: bool,
}

impl AccountKey {
    pub fn new(key: String) -> (r: AccountKey)
        ensures
            r.key == key,
            !r.used,
    {
        AccountKey { key, used: false }
    }

    pub fn is_used(&self) -> (r: bool)
        ensures
            r == self.used,
    {
        self.used
    }

    pub fn get_key(&self) -> (r: String)
        ensures
            r == self.key,
    {
        self.key.clone()
    }
}

pub struct User {
    pub username: String,
    /// The bcrypt hash of the password.
    pub password: String,
    pub public_name: String,
    pub biography: String,
    pub followers: i32,
    pub followed: i32,
}

impl User {
    pub fn new(username: String, password: String, public_name: String, biography: String) -> (r: Self)
        ensures
            r == (User { username, password, public_name, biography, followers: 0, followed: 0 }),
    {
        User { username, password, public_name, biography, followers: 0, followed: 0 }
    }

    pub fn duplicate(&self) -> (r: Self)
        ensures
            r == *self,
    {
        User {
            username: self.username.clone(),
            password: self.password.clone(),
            public_name: self.public_name.clone(),
            biography: self.biography.clone(),
            followers: self.followers,
            followed: self.followed,
        }
    }

    /// Checks `password` against the stored hash with `bcrypt::verify`.
    pub fn verify_password(&self, password: String) -> (r: Result<bool, bcrypt::BcryptError>)
        ensures
            r is Ok <==> bcrypt_verdict(password@, self.password@) is Some,
            r matches Ok(b) ==> bcrypt_verdict(password@, self.password@) == Some(b),
    {
        bcrypt_verify(password, &self.password)
    }

    pub fn get_username(&self) -> (r: String)
        ensures
            r == self.username,
    {
        self.username.clone()
    }

    pub fn borrow_username(&self) -> (r: &String)
        ensures
            *r == self.username,
    {
        &self.username
    }

    pub fn get_public_name(&self) -> (r: String)
        ensures
            r == self.public_name,
    {
        self.public_name.clone()
    }

    pub fn get_biography(&self) -> (r: String)
        ensures
            r == self.biography,
    {
        self.biography.clone()
    }

    pub fn set_public_name_unchecked(&mut self, public_name: String)
        ensures
            *final(self) == (User { public_name, ..*old(self) }),
    {
        self.public_name = public_name;
    }

    pub fn set_biography_unchecked(&mut self, biography: String)
        ensures
            *final(self) == (User { biography, ..*old(self) }),
    {
        self.biography = biography;
    }

    pub fn get_follower_count(&self) -> (r: i32)
        ensures
            r == self.followers,
    {
        self.followers
    }

    pub fn set_follower_count_unchecked(&mut self, followers: i32)
        ensures
            *final(self) == (User { followers, ..*old(self) }),
    {
        self.followers = followers;
    }

    pub fn get_followed_count(&self) -> (r: i32)
        ensures
            r == self.followed,
    {
        self.followed
    }

    pub fn set_followed_count_unchecked(&mut self, followed: i32)
        ensures
            *final(self) == (User { followed, ..*old(self) }),
    {
        self.followed = followed;
    }
}

/// A login session; sessions without a timestamp do not expire.
pub struct Session {
    pub id: String,
    pub username: String,
    pub timestamp: Option<i64>,
}

/// How long, in seconds, an expiring session stays valid after its timestamp.
pub const SESSION_LIFETIME: i64 = 600;

/// A session with timestamp `timestamp` is still valid at time `now`.
pub open spec fn session_is_live(timestamp: Option<i64>, now: i64) -> bool {
    match timestamp {
        None => true,
        Some(t) => now - t <= SESSION_LIFETIME,
    }
}

/// A session just opened for `username` at time `now`.
pub open spec fn new_session_row(id: String, username: String, expires: bool, now: i64) -> Session {
    Session { id, username, timestamp: if expires { Some(now) } else { None } }
}

impl Session {
    /// Opens a session for `user` with a fresh id; an expiring session is
    /// stamped with `now`.
    pub fn open_for_user(user: User, expires: bool, now: i64) -> (r: Self)
        ensures
            r == new_session_row(r.id, user.username, expires, now),
            is_hyphenated_v4(r.id@),
    {
        Session::with_id(fresh_id(), user.username, expires, now)
    }

    /// A session with the given id, otherwise as `open_for_user` makes it.
    pub fn with_id(id: String, username: String, expires: bool, now: i64) -> (r: Self)
        ensures
            r == new_session_row(id, username, expires, now),
    {
        Session { id, username, timestamp: if expires { Some(now) } else { None } }
    }

    pub fn get_id(&self) -> (r: String)
        ensures
            r == self.id,
    {
        self.id.clone()
    }

    pub fn get_username(&self) -> (r: String)
        ensures
            r == self.username,
    {
        self.username.clone()
    }

    pub fn get_timestamp(&self) -> (r: Option<i64>)
        ensures
            r == self.timestamp,
    {
        self.timestamp
    }

    /// Moves the timestamp of an expiring session; a session that does not
    /// expire stays as it is.
    pub fn renew(&mut self, timestamp: i64)
        ensures
            final(self).id == old(self).id,
            final(self).username == old(self).username,
            final(self).timestamp == (match old(self).timestamp {
                Some(_) => Some(timestamp),
                None => None::<i64>,
            }),
    {
        if self.timestamp.is_some() {
            self.timestamp = Some(timestamp);
        }
    }

    /// Whether this session is still valid at time `now`. The difference is
    /// computed as `now - timestamp` and must fit in an `i64`.
    pub fn is_live(&self, now: i64) -> (r: bool)
        requires
            self.timestamp matches Some(t) ==> i64::MIN <= now - t <= i64::MAX,
        ensures
            r == session_is_live(self.timestamp, now),
    {
        match self.timestamp {
            None => true,
            Some(t) => now - t <= SESSION_LIFETIME,
        }
    }
}

pub struct Post {
    pub id: String,
    pub creator: String,
    pub body: String,
    pub timestamp: i64,
    pub rating: i32,
    pub appendage_id: Option<String>,
    pub room: Option<String>,
    pub parent: Option<String>,
    pub comments: i32,
    pub shares: i32,
    pub reposts: i32,
    pub bookmarks: i32,
    pub child: Option<String>,
}

/// The id of an optional row.
pub open spec fn post_id_of(p: Option<&Post>) -> Option<String> {
    match p {
        Some(p) => Some(p.id),
        None => None,
    }
}

pub open spec fn room_id_of(r: Option<&Room>) -> Option<String> {
    match r {
        Some(r) => Some(r.id),
        None => None,
    }
}

/// A freshly created post: every counter at zero.
pub open spec fn new_post_row(
    id: String,
    creator: String,
    body: String,
    appendage_id: Option<String>,
    room: Option<String>,
    parent: Option<String>,
    child: Option<String>,
    timestamp: i64,
) -> Post {
    Post {
        id,
        creator,
        body,
        timestamp,
        rating: 0,
        appendage_id,
        room,
        parent,
        comments: 0,
        shares: 0,
        reposts: 0,
        bookmarks: 0,
        child,
    }
}

impl Post {
    /// A new post by `creator` with a fresh id, created at `timestamp`, with
    /// every counter at zero.
    pub fn new(
        creator: &User,
        body: String,
        appendage_id: Option<String>,
        room: Option<&Room>,
        parent: Option<&Post>,
        child: Option<&Post>,
        timestamp: i64,
    ) -> (r: Self)
        ensures
            is_hyphenated_v4(r.id@),
            r == new_post_row(r.id, creator.username, body, appendage_id, room_id_of(room), post_id_of(parent), post_id_of(child), timestamp),
    {
        Post::with_id(fresh_id(), creator, body, appendage_id, room, parent, child, timestamp)
    }

    /// A new post with the given id, otherwise as `new` makes it.
    pub fn with_id(
        id: String,
        creator: &User,
        body: String,
        appendage_id: Option<String>,
        room: Option<&Room>,
        parent: Option<&Post>,
        child: Option<&Post>,
        timestamp: i64,
    ) -> (r: Self)
        ensures
            r == new_post_row(id, creator.username, body, appendage_id, room_id_of(room), post_id_of(parent), post_id_of(child), timestamp),
    {
        Post {
            id,
            creator: creator.get_username(),
            body,
            timestamp,
            rating: 0,
            appendage_id,
            room: match room {
                Some(r) => Some(r.get_id()),
                None => None,
            },
            parent: match parent {
                Some(p) => Some(p.get_id()),
                None => None,
            },
            comments: 0,
            shares: 0,
            reposts: 0,
            bookmarks: 0,
            child: match child {
                Some(p) => Some(p.get_id()),
                None => None,
            },
        }
    }

    pub fn duplicate(&self) -> (r: Self)
        ensures
            r == *self,
    {
        Post {
            id: self.id.clone(),
            creator: self.creator.clone(),
            body: self.body.clone(),
            timestamp: self.timestamp,
            rating: self.rating,
            appendage_id: copy_opt(&self.appendage_id),
            room: copy_opt(&self.room),
            parent: copy_opt(&self.parent),
            comments: self.comments,
            shares: self.shares,
            reposts: self.reposts,
            bookmarks: self.bookmarks,
            child: copy_opt(&self.child),
        }
    }

    pub fn get_id(&self) -> (r: String)
        ensures
            r == self.id,
    {
        self.id.clone()
    }

    pub fn get_rating(&self) -> (r: i32)
        ensures
            r == self.rating,
    {
        self.rating
    }

    pub fn set_rating_unchecked(&mut self, rating: i32)
        ensures
            *final(self) == (Post { rating, ..*old(self) }),
    {
        self.rating = rating;
    }

    pub fn get_comments_amount(&self) -> (r: i32)
        ensures
            r == self.comments,
    {
        self.comments
    }

    pub fn set_comments_amount_unchecked(&mut self, amount: i32)
        ensures
            *final(self) == (Post { comments: amount, ..*old(self) }),
    {
        self.comments = amount;
    }

    pub fn get_creator(&self) -> (r: String)
        ensures
            r == self.creator,
    {
        self.creator.clone()
    }

    pub fn get_parent(&self) -> (r: Option<String>)
        ensures
            r == self.parent,
    {
        copy_opt(&self.parent)
    }

    pub fn get_child(&self) -> (r: Option<String>)
        ensures
            r == self.child,
    {
        copy_opt(&self.child)
    }

    pub fn get_reposts_amount(&self) -> (r: i32)
        ensures
            r == self.reposts,
    {
        self.reposts
    }

    pub fn set_reposts_amount_unchecked(&mut self, reposts: i32)
        ensures
            *final(self) == (Post { reposts, ..*old(self) }),
    {
        self.reposts = reposts;
    }

    pub fn get_room(&self) -> (r: Option<String>)
        ensures
            r == self.room,
    {
        copy_opt(&self.room)
    }

    pub fn set_shares_unchecked(&mut self, shares: i32)
        ensures
            *final(self) == (Post { shares, ..*old(self) }),
    {
        self.shares = shares;
    }

    pub fn get_shares(&self) -> (r: i32)
        ensures
            r == self.shares,
    {
        self.shares
    }

    pub fn set_bookmarks_unchecked(&mut self, bookmarks: i32)
        ensures
            *final(self) == (Post { bookmarks, ..*old(self) }),
    {
        self.bookmarks = bookmarks;
    }

    pub fn get_bookmarks(&self) -> (r: i32)
        ensures
            r == self.bookmarks,
    {
        self.bookmarks
    }
}

pub struct Room {
    pub id: String,
    pub name: String,
    pub description: String,
    pub color: String,
    pub date_created: i64,
    pub is_private: bool,
    pub owner: String,
}

/// Upper bounds, in bytes, on a room's name, description and color.
pub const MAX_ROOM_NAME_LEN: usize = 24;
pub const MAX_ROOM_DESCRIPTION_LEN: usize = 150;
pub const MAX_ROOM_COLOR_LEN: usize = 6;

/// The room creation data respects the size limits.
pub open spec fn room_data_fits(data: RoomCreationData) -> bool {
    &&& byte_len(data.name@) <= MAX_ROOM_NAME_LEN
    &&& byte_len(data.description@) <= MAX_ROOM_DESCRIPTION_LEN
    &&& byte_len(data.color@) <= MAX_ROOM_COLOR_LEN
}

/// A room just opened from `data` by `owner` at time `now`.
pub open spec fn new_room_row(id: String, data: RoomCreationData, owner: String, now: i64) -> Room {
    Room {
        id,
        name: data.name,
        description: data.description,
        color: data.color,
        date_created: now,
        is_private: data.is_private,
        owner,
    }
}

impl Room {
    pub fn duplicate(&self) -> (r: Self)
        ensures
            r == *self,
    {
        Room {
            id: self.id.clone(),
            name: self.name.clone(),
            description: self.description.clone(),
            color: self.color.clone(),
            date_created: self.date_created,
            is_private: self.is_private,
            owner: self.owner.clone(),
        }
    }

    pub fn get_id(&self) -> (r: String)
        ensures
            r == self.id,
    {
        self.id.clone()
    }

    /// Opens a room owned by `user`, created at `now`, with a fresh id;
    /// refused with `ContentTooLarge` when a field is over its limit.
    pub fn try_open(data: RoomCreationData, user: &User, now: i64) -> (r: Result<Self, ApiError>)
        ensures
            !room_data_fits(data) ==> r == Err::<Room, ApiError>(ApiError::ContentTooLarge),
            room_data_fits(data) ==> (r matches Ok(room) && is_hyphenated_v4(room.id@) && room == new_room_row(
                room.id,
                data,
                user.username,
                now,
            )),
    {
        Room::try_open_with_id(fresh_id(), data, user, now)
    }

    /// Opens a room with the given id, otherwise as `try_open` does.
    pub fn try_open_with_id(id: String, data: RoomCreationData, user: &User, now: i64) -> (r: Result<Self, ApiError>)
        ensures
            !room_data_fits(data) ==> r == Err::<Room, ApiError>(ApiError::ContentTooLarge),
            room_data_fits(data) ==> r == Ok::<Room, ApiError>(new_room_row(id, data, user.username, now)),
    {
        if data.name.as_str().len() > MAX_ROOM_NAME_LEN || data.description.as_str().len()
            > MAX_ROOM_DESCRIPTION_LEN || data.color.as_str().len() > MAX_ROOM_COLOR_LEN {
            return Err(ApiError::ContentTooLarge);
        }
        Ok(Room {
            id,
            name: data.name,
            description: data.description,
            color: data.color,
            date_created: now,
            is_private: data.is_private,
            owner: user.get_username(),
        })
    }

    pub fn get_owner(&self) -> (r: String)
        ensures
            r == self.owner,
    {
        self.owner.clone()
    }

    pub fn is_private(&self) -> (r: bool)
        ensures
            r == self.is_private,
    {
        self.is_private
    }

    pub fn get_name(&self) -> (r: String)
        ensures
            r == self.name,
    {
        self.name.clone()
    }

    pub fn set_name_unchecked(&mut self, name: String)
        ensures
            *final(self) == (Room { name, ..*old(self) }),
    {
        self.name = name;
    }

    pub fn set_description_unchecked(&mut self, description: String)
        ensures
            *final(self) == (Room { description, ..*old(self) }),
    {
        self.description = description;
    }

    pub fn set_color_unchecked(&mut self, color: String)
        ensures
            *final(self) == (Room { color, ..*old(self) }),
    {
        self.color = color;
    }
}

pub struct Rating {
    pub user: String,
    pub post: String,
    pub is_upvote: bool,
}

impl Rating {
    pub fn is_upvote(&self) -> (r: bool)
        ensures
            r == self.is_upvote,
    {
        self.is_upvote
    }

    pub fn new(user: &User, post: &Post, is_upvote: bool) -> (r: Self)
        ensures
            r == (Rating { user: user.username, post: post.id, is_upvote }),
    {
        Rating { user: user.get_username(), post: post.get_id(), is_upvote }
    }
}

pub struct Membership {
    pub user: String,
    pub room: String,
    pub date_joined: i64,
}

impl Membership {
    /// `user` joins `room` at time `now`.
    pub fn new(user: &User, room: &Room, now: i64) -> (r: Self)
        ensures
            r == (Membership { user: user.username, room: room.id, date_joined: now }),
    {
        Membership { user: user.get_username(), room: room.get_id(), date_joined: now }
    }
}

pub struct Ban {
    pub user: String,
    pub room: String,
}

impl Ban {
    pub fn new(user: &User, room: &Room) -> (r: Self)
        ensures
            r == (Ban { user: user.username, room: room.id }),
    {
        Ban { user: user.get_username(), room: room.get_id() }
    }
}

pub struct Bookmark {
    pub user: String,
    pub post: String,
}

impl Bookmark {
    pub fn new(user: &User, post: &Post) -> (r: Self)
        ensures
            r == (Bookmark { user: user.username, post: post.id }),
    {
        Bookmark { user: user.get_username(), post: post.get_id() }
    }
}

pub struct Following {
    pub follower: String,
    pub followed: String,
}

impl Following {
    pub fn new(follower: &User, followed: &User) -> (r: Self)
        ensures
            r == (Following { follower: follower.username, followed: followed.username }),
    {
        Following { follower: follower.get_username(), followed: followed.get_username() }
    }
}

pub struct Notification {
    pub id: String,
    pub user: String,
    pub message: String,
    pub href: String,
    pub timestamp: i64,
}

/// When a notification of a given type was last sent from one user to another.
pub struct NotificationTimeout {
    pub notification_type: String,
    pub emitter: String,
    pub receiver: String,
    pub timestamp_emitted: i64,
}

impl NotificationTimeout {
    pub fn renew(&mut self, new_timestamp: i64)
        ensures
            *final(self) == (NotificationTimeout { timestamp_emitted: new_timestamp, ..*old(self) }),
    {
        self.timestamp_emitted = new_timestamp;
    }
}

} // verus!
