//! Following other users, and what following shows.
use vstd::prelude::*;

use crate::api::notification::{Pending, PushNotification};
use crate::api::{all_found, found_value, user_queries_from_lookups, user_query_of, IsFollowingResponse};
use crate::error::ApiError;
use crate::flow::{
    authenticated, authenticated_user, fail, found_user, page_fits, page_in_range, page_offset, read_page,
    reply, user_found, Action, Change, Event, Key, Listing, Lookup, NotifyRequest, Outcome, Reply, Task,
};
use crate::models::{Following, Notification, User};

verus! {

/// `u` with one more follower.
pub open spec fn with_follower_added(u: User) -> User {
    User { followers: (u.followers + 1) as i32, ..u }
}

/// `u` following one more user.
pub open spec fn with_followed_added(u: User) -> User {
    User { followed: (u.followed + 1) as i32, ..u }
}

/// `u` with one follower less.
pub open spec fn with_follower_removed(u: User) -> User {
    User { followers: (u.followers - 1) as i32, ..u }
}

/// `u` following one user less.
pub open spec fn with_followed_removed(u: User) -> User {
    User { followed: (u.followed - 1) as i32, ..u }
}


/// Makes the requesting user follow another user, in one transaction: the
/// following is recorded and both users' counts go up by one. Following a user
/// twice fails. The followed user is notified in the background.
pub enum Follow {
    AwaitUser { username: String },
    AwaitTarget { user: User },
    AwaitBegin { user: User, target: User },
    AwaitExisting { user: User, target: User },
    AwaitInsert { user: User, target: User },
    AwaitTargetSave { user: User, target_name: String },
    AwaitUserSave { user: User, target_name: String },
    AwaitSpawn,
    AwaitCommit,
    AwaitRollback,
    Done,
}

impl Follow {
    /// Both counts can be raised.
    pub open spec fn admits(&self, e: &Event) -> bool {
        match self {
            Follow::AwaitInsert { user, target } => e matches Event::Written(true) ==> user.followed < i32::MAX
                && target.followers < i32::MAX,
            _ => true,
        }
    }

    pub fn accepts(&self, e: &Event) -> (r: bool)
        ensures
            r == self.admits(e),
    {
        match self {
            Follow::AwaitInsert { user, target } => match e {
                Event::Written(true) => user.followed < i32::MAX && target.followers < i32::MAX,
                _ => true,
            },
            _ => true,
        }
    }

    pub open spec fn next(self, e: Event) -> (Follow, Action<Outcome>) {
        match self {
            Follow::AwaitUser { username } => match authenticated(e) {
                Err(x) => (Follow::Done, fail(x)),
                Ok(user) => (Follow::AwaitTarget { user }, Action::Fetch(Key::User(username))),
            },
            Follow::AwaitTarget { user } => match found_user(e, ApiError::UserDoesNotExist) {
                Err(x) => (Follow::Done, fail(x)),
                Ok(target) => (Follow::AwaitBegin { user, target }, Action::Begin),
            },
            Follow::AwaitBegin { user, target } => match e {
                Event::Written(true) => (
                    Follow::AwaitExisting { user, target },
                    Action::Fetch(Key::Following { follower: user.username, followed: target.username }),
                ),
                _ => (Follow::Done, fail(ApiError::InternalServer)),
            },
            Follow::AwaitExisting { user, target } => match e {
                Event::FollowingRow(Lookup::Missing) => (
                    Follow::AwaitInsert { user, target },
                    Action::Write(Change::InsertFollowing(Following { follower: user.username, followed: target.username })),
                ),
                _ => (Follow::AwaitRollback, Action::Rollback),
            },
            Follow::AwaitInsert { user, target } => match e {
                Event::Written(true) => (
                    Follow::AwaitTargetSave { user: with_followed_added(user), target_name: target.username },
                    Action::Write(Change::SaveUser(with_follower_added(target))),
                ),
                _ => (Follow::AwaitRollback, Action::Rollback),
            },
            Follow::AwaitTargetSave { user, target_name } => match e {
                Event::Written(true) => (Follow::AwaitUserSave { user, target_name }, Action::Write(Change::SaveUser(user))),
                _ => (Follow::AwaitRollback, Action::Rollback),
            },
            Follow::AwaitUserSave { user, target_name } => match e {
                Event::Written(true) => (
                    Follow::AwaitSpawn,
                    Action::Spawn(Task::Notify(NotifyRequest::Follow { emitter: user, receiver: target_name })),
                ),
                _ => (Follow::AwaitRollback, Action::Rollback),
            },
            Follow::AwaitSpawn => (Follow::AwaitCommit, Action::Commit),
            Follow::AwaitCommit => match e {
                Event::Written(true) => (Follow::Done, reply(Reply::Empty)),
                _ => (Follow::Done, fail(ApiError::InternalServer)),
            },
            Follow::AwaitRollback => (Follow::Done, fail(ApiError::InternalServer)),
            Follow::Done => (Follow::Done, fail(ApiError::InternalServer)),
        }
    }

    pub fn step(self, e: Event) -> (r: (Follow, Action<Outcome>))
        requires
            self.admits(&e),
        ensures
            r == self.next(e),
    {
        match self {
            Follow::AwaitUser { username } => match authenticated_user(e) {
                Err(x) => (Follow::Done, Action::Finish(Err(x))),
                Ok(user) => (Follow::AwaitTarget { user }, Action::Fetch(Key::User(username))),
            },
            Follow::AwaitTarget { user } => match user_found(e, ApiError::UserDoesNotExist) {
                Err(x) => (Follow::Done, Action::Finish(Err(x))),
                Ok(target) => (Follow::AwaitBegin { user, target }, Action::Begin),
            },
            Follow::AwaitBegin { user, target } => match e {
                Event::Written(true) => {
                    let key = Key::Following { follower: user.get_username(), followed: target.get_username() };
                    (Follow::AwaitExisting { user, target }, Action::Fetch(key))
                },
                _ => (Follow::Done, Action::Finish(Err(ApiError::InternalServer))),
            },
            Follow::AwaitExisting { user, target } => match e {
                Event::FollowingRow(Lookup::Missing) => {
                    let f = Following::new(&user, &target);
                    (Follow::AwaitInsert { user, target }, Action::Write(Change::InsertFollowing(f)))
                },
                _ => (Follow::AwaitRollback, Action::Rollback),
            },
            Follow::AwaitInsert { mut user, mut target } => match e {
                Event::Written(true) => {
                    let n = target.get_follower_count() + 1;
                    target.set_follower_count_unchecked(n);
                    let m = user.get_followed_count() + 1;
                    user.set_followed_count_unchecked(m);
                    let target_name = target.get_username();
                    (Follow::AwaitTargetSave { user, target_name }, Action::Write(Change::SaveUser(target)))
                },
                _ => (Follow::AwaitRollback, Action::Rollback),
            },
            Follow::AwaitTargetSave { user, target_name } => match e {
                Event::Written(true) => {
                    let row = user.duplicate();
                    (Follow::AwaitUserSave { user, target_name }, Action::Write(Change::SaveUser(row)))
                },
                _ => (Follow::AwaitRollback, Action::Rollback),
            },
            Follow::AwaitUserSave { user, target_name } => match e {
                Event::Written(true) => (
                    Follow::AwaitSpawn,
                    Action::Spawn(Task::Notify(NotifyRequest::Follow { emitter: user, receiver: target_name })),
                ),
                _ => (Follow::AwaitRollback, Action::Rollback),
            },
            Follow::AwaitSpawn => (Follow::AwaitCommit, Action::Commit),
            Follow::AwaitCommit => match e {
                Event::Written(true) => (Follow::Done, Action::Finish(Ok(Reply::Empty))),
                _ => (Follow::Done, Action::Finish(Err(ApiError::InternalServer))),
            },
            Follow::AwaitRollback => (Follow::Done, Action::Finish(Err(ApiError::InternalServer))),
            Follow::Done => (Follow::Done, Action::Finish(Err(ApiError::InternalServer))),
        }
    }
}

pub fn follow(username: String) -> (r: (Follow, Action<Outcome>))
    ensures
        r == (Follow::AwaitUser { username }, Action::<Outcome>::Authenticate),
{
    (Follow::AwaitUser { username }, Action::Authenticate)
}

/// A user already followed is not followed twice: the transaction is rolled
/// back and nothing is written.
pub proof fn law_follow_is_not_repeated(user: User, target: User, f: Following)
    ensures
        (Follow::AwaitExisting { user, target }).next(Event::FollowingRow(Lookup::Found(f))) == (
            Follow::AwaitRollback,
            Action::<Outcome>::Rollback,
        ),
{
}

/// The literal text of a follow notification.
pub open spec fn follow_message(public_name: Seq<char>) -> Seq<char> {
    public_name + " is now following you!"@
}

/// Starts telling `username` that `emitter` follows them now: a notification
/// of type `Follow` that links to the emitter's profile.
pub fn follow_notification_rollout(emitter: User, username: String, now: i64) -> (r: (
    PushNotification,
    Action<Result<(), ApiError>>,
))
    ensures
        r.0 matches PushNotification::AwaitTimeout { n } && {
            &&& n.notification_type@ == "Follow"@
            &&& n.emitter == emitter.username
            &&& n.receiver == username
            &&& n.message@ == follow_message(emitter.public_name@)
            &&& n.href@ == "?view=profile&id="@ + emitter.username@
            &&& n.now == now
        },
{
    let message = emitter.get_public_name().concat(" is now following you!");
    let href = "?view=profile&id=".to_owned().concat(emitter.borrow_username().as_str());
    Notification::push_unchecked("Follow".to_owned(), &emitter, username, message, href, now)
}

/// Makes the requesting user stop following another user, in one
/// transaction: the following is removed and both users' counts go down by
/// one. Unfollowing a user not followed fails.
pub enum Unfollow {
    AwaitUser { username: String },
    AwaitTarget { user: User },
    AwaitBegin { user: User, target: User },
    AwaitExisting { user: User, target: User },
    AwaitDelete { user: User, target: User },
    AwaitTargetSave { user: User },
    AwaitUserSave,
    AwaitCommit,
    AwaitRollback,
    Done,
}

impl Unfollow {
    /// Both counts can be lowered.
    pub open spec fn admits(&self, e: &Event) -> bool {
        match self {
            Unfollow::AwaitDelete { user, target } => e matches Event::Written(true) ==> user.followed > i32::MIN
                && target.followers > i32::MIN,
            _ => true,
        }
    }

    pub fn accepts(&self, e: &Event) -> (r: bool)
        ensures
            r == self.admits(e),
    {
        match self {
            Unfollow::AwaitDelete { user, target } => match e {
                Event::Written(true) => user.followed > i32::MIN && target.followers > i32::MIN,
                _ => true,
            },
            _ => true,
        }
    }

    pub open spec fn next(self, e: Event) -> (Unfollow, Action<Outcome>) {
        match self {
            Unfollow::AwaitUser { username } => match authenticated(e) {
                Err(x) => (Unfollow::Done, fail(x)),
                Ok(user) => (Unfollow::AwaitTarget { user }, Action::Fetch(Key::User(username))),
            },
            Unfollow::AwaitTarget { user } => match found_user(e, ApiError::UserDoesNotExist) {
                Err(x) => (Unfollow::Done, fail(x)),
                Ok(target) => (Unfollow::AwaitBegin { user, target }, Action::Begin),
            },
            Unfollow::AwaitBegin { user, target } => match e {
                Event::Written(true) => (
                    Unfollow::AwaitExisting { user, target },
                    Action::Fetch(Key::Following { follower: user.username, followed: target.username }),
                ),
                _ => (Unfollow::Done, fail(ApiError::InternalServer)),
            },
            Unfollow::AwaitExisting { user, target } => match e {
                Event::FollowingRow(Lookup::Found(_)) => (
                    Unfollow::AwaitDelete { user, target },
                    Action::Write(Change::DeleteFollowing { follower: user.username, followed: target.username }),
                ),
                _ => (Unfollow::AwaitRollback, Action::Rollback),
            },
            Unfollow::AwaitDelete { user, target } => match e {
                Event::Written(true) => (
                    Unfollow::AwaitTargetSave { user: with_followed_removed(user) },
                    Action::Write(Change::SaveUser(with_follower_removed(target))),
                ),
                _ => (Unfollow::AwaitRollback, Action::Rollback),
            },
            Unfollow::AwaitTargetSave { user } => match e {
                Event::Written(true) => (Unfollow::AwaitUserSave, Action::Write(Change::SaveUser(user))),
                _ => (Unfollow::AwaitRollback, Action::Rollback),
            },
            Unfollow::AwaitUserSave => match e {
                Event::Written(true) => (Unfollow::AwaitCommit, Action::Commit),
                _ => (Unfollow::AwaitRollback, Action::Rollback),
            },
            Unfollow::AwaitCommit => match e {
                Event::Written(true) => (Unfollow::Done, reply(Reply::Empty)),
                _ => (Unfollow::Done, fail(ApiError::InternalServer)),
            },
            Unfollow::AwaitRollback => (Unfollow::Done, fail(ApiError::InternalServer)),
            Unfollow::Done => (Unfollow::Done, fail(ApiError::InternalServer)),
        }
    }

    pub fn step(self, e: Event) -> (r: (Unfollow, Action<Outcome>))
        requires
            self.admits(&e),
        ensures
            r == self.next(e),
    {
        match self {
            Unfollow::AwaitUser { username } => match authenticated_user(e) {
                Err(x) => (Unfollow::Done, Action::Finish(Err(x))),
                Ok(user) => (Unfollow::AwaitTarget { user }, Action::Fetch(Key::User(username))),
            },
            Unfollow::AwaitTarget { user } => match user_found(e, ApiError::UserDoesNotExist) {
                Err(x) => (Unfollow::Done, Action::Finish(Err(x))),
                Ok(target) => (Unfollow::AwaitBegin { user, target }, Action::Begin),
            },
            Unfollow::AwaitBegin { user, target } => match e {
                Event::Written(true) => {
                    let key = Key::Following { follower: user.get_username(), followed: target.get_username() };
                    (Unfollow::AwaitExisting { user, target }, Action::Fetch(key))
                },
                _ => (Unfollow::Done, Action::Finish(Err(ApiError::InternalServer))),
            },
            Unfollow::AwaitExisting { user, target } => match e {
                Event::FollowingRow(Lookup::Found(_)) => {
                    let change = Change::DeleteFollowing { follower: user.get_username(), followed: target.get_username() };
                    (Unfollow::AwaitDelete { user, target }, Action::Write(change))
                },
                _ => (Unfollow::AwaitRollback, Action::Rollback),
            },
            Unfollow::AwaitDelete { mut user, mut target } => match e {
                Event::Written(true) => {
                    let n = target.get_follower_count() - 1;
                    target.set_follower_count_unchecked(n);
                    let m = user.get_followed_count() - 1;
                    user.set_followed_count_unchecked(m);
                    (Unfollow::AwaitTargetSave { user }, Action::Write(Change::SaveUser(target)))
                },
                _ => (Unfollow::AwaitRollback, Action::Rollback),
            },
            Unfollow::AwaitTargetSave { user } => match e {
                Event::Written(true) => (Unfollow::AwaitUserSave, Action::Write(Change::SaveUser(user))),
                _ => (Unfollow::AwaitRollback, Action::Rollback),
            },
            Unfollow::AwaitUserSave => match e {
                Event::Written(true) => (Unfollow::AwaitCommit, Action::Commit),
                _ => (Unfollow::AwaitRollback, Action::Rollback),
            },
            Unfollow::AwaitCommit => match e {
                Event::Written(true) => (Unfollow::Done, Action::Finish(Ok(Reply::Empty))),
                _ => (Unfollow::Done, Action::Finish(Err(ApiError::InternalServer))),
            },
            Unfollow::AwaitRollback => (Unfollow::Done, Action::Finish(Err(ApiError::InternalServer))),
            Unfollow::Done => (Unfollow::Done, Action::Finish(Err(ApiError::InternalServer))),
        }
    }
}

pub fn unfollow(username: String) -> (r: (Unfollow, Action<Outcome>))
    ensures
        r == (Unfollow::AwaitUser { username }, Action::<Outcome>::Authenticate),
{
    (Unfollow::AwaitUser { username }, Action::Authenticate)
}

/// Tells whether the requesting user follows a user.
pub enum IsFollowing {
    AwaitUser { username: String },
    AwaitRecord,
    Done,
}

impl IsFollowing {
    pub open spec fn admits(&self, e: &Event) -> bool {
        true
    }

    pub fn accepts(&self, e: &Event) -> (r: bool)
        ensures
            r == self.admits(e),
    {
        true
    }

    pub open spec fn next(self, e: Event) -> (IsFollowing, Action<Outcome>) {
        match self {
            IsFollowing::AwaitUser { username } => match authenticated(e) {
                Err(x) => (IsFollowing::Done, fail(x)),
                Ok(user) => (
                    IsFollowing::AwaitRecord,
                    Action::Fetch(Key::Following { follower: user.username, followed: username }),
                ),
            },
            IsFollowing::AwaitRecord => match e {
                Event::FollowingRow(Lookup::Found(_)) => (
                    IsFollowing::Done,
                    reply(Reply::IsFollowing(IsFollowingResponse { is_following: true })),
                ),
                Event::FollowingRow(Lookup::Missing) => (
                    IsFollowing::Done,
                    reply(Reply::IsFollowing(IsFollowingResponse { is_following: false })),
                ),
                _ => (IsFollowing::Done, fail(ApiError::InternalServer)),
            },
            IsFollowing::Done => (IsFollowing::Done, fail(ApiError::InternalServer)),
        }
    }

    pub fn step(self, e: Event) -> (r: (IsFollowing, Action<Outcome>))
        requires
            self.admits(&e),
        ensures
            r == self.next(e),
    {
        match self {
            IsFollowing::AwaitUser { username } => match authenticated_user(e) {
                Err(x) => (IsFollowing::Done, Action::Finish(Err(x))),
                Ok(user) => (
                    IsFollowing::AwaitRecord,
                    Action::Fetch(Key::Following { follower: user.username, followed: username }),
                ),
            },
            IsFollowing::AwaitRecord => match e {
                Event::FollowingRow(Lookup::Found(_)) => (
                    IsFollowing::Done,
                    Action::Finish(Ok(Reply::IsFollowing(IsFollowingResponse { is_following: true }))),
                ),
                Event::FollowingRow(Lookup::Missing) => (
                    IsFollowing::Done,
                    Action::Finish(Ok(Reply::IsFollowing(IsFollowingResponse { is_following: false }))),
                ),
                _ => (IsFollowing::Done, Action::Finish(Err(ApiError::InternalServer))),
            },
            IsFollowing::Done => (IsFollowing::Done, Action::Finish(Err(ApiError::InternalServer))),
        }
    }
}

pub fn is_following(username: String) -> (r: (IsFollowing, Action<Outcome>))
    ensures
        r == (IsFollowing::AwaitUser { username }, Action::<Outcome>::Authenticate),
{
    (IsFollowing::AwaitUser { username }, Action::Authenticate)
}

/// One page of the posts of the users that the requesting user follows,
/// newest first: posts outside every room, or in a room that is public or
/// that the user belongs to.
pub enum FollowedFeed {
    AwaitUser { page: Option<String> },
    AwaitFollowed { user: User, offset: i64 },
    AwaitRooms { user: User, offset: i64, creators: Vec<String> },
    AwaitPosts { user: User },
    AwaitDescribed,
    Done,
}

impl FollowedFeed {
    pub open spec fn admits(&self, e: &Event) -> bool {
        match self {
            FollowedFeed::AwaitUser { page } => e matches Event::Authenticated(Some(_)) ==> page_fits(*page),
            _ => true,
        }
    }

    pub fn accepts(&self, e: &Event) -> (r: bool)
        ensures
            r == self.admits(e),
    {
        match self {
            FollowedFeed::AwaitUser { page } => match e {
                Event::Authenticated(Some(_)) => page_in_range(page),
                _ => true,
            },
            _ => true,
        }
    }

    pub open spec fn next(self, e: Event) -> (FollowedFeed, Action<Outcome>) {
        match self {
            FollowedFeed::AwaitUser { page } => match authenticated(e) {
                Err(x) => (FollowedFeed::Done, fail(x)),
                Ok(user) => match page_offset(page) {
                    Err(x) => (FollowedFeed::Done, fail(x)),
                    Ok(offset) => (
                        FollowedFeed::AwaitFollowed { user, offset },
                        Action::List(Listing::FollowedNames { follower: user.username }),
                    ),
                },
            },
            FollowedFeed::AwaitFollowed { user, offset } => match e {
                Event::Names(Some(creators)) => (
                    FollowedFeed::AwaitRooms { user, offset, creators },
                    Action::List(Listing::FeedRooms { user: user.username }),
                ),
                _ => (FollowedFeed::Done, fail(ApiError::InternalServer)),
            },
            FollowedFeed::AwaitRooms { user, offset, creators } => match e {
                Event::Names(Some(rooms)) => (
                    FollowedFeed::AwaitPosts { user },
                    Action::List(Listing::FeedPosts { creators, rooms, offset }),
                ),
                _ => (FollowedFeed::Done, fail(ApiError::InternalServer)),
            },
            FollowedFeed::AwaitPosts { user } => match e {
                Event::Posts(Some(posts)) => (FollowedFeed::AwaitDescribed, Action::Describe { user, posts }),
                _ => (FollowedFeed::Done, fail(ApiError::InternalServer)),
            },
            FollowedFeed::AwaitDescribed => match e {
                Event::Described(v) => (FollowedFeed::Done, reply(Reply::Posts(v))),
                _ => (FollowedFeed::Done, fail(ApiError::InternalServer)),
            },
            FollowedFeed::Done => (FollowedFeed::Done, fail(ApiError::InternalServer)),
        }
    }

    pub fn step(self, e: Event) -> (r: (FollowedFeed, Action<Outcome>))
        requires
            self.admits(&e),
        ensures
            r == self.next(e),
    {
        match self {
            FollowedFeed::AwaitUser { page } => match authenticated_user(e) {
                Err(x) => (FollowedFeed::Done, Action::Finish(Err(x))),
                Ok(user) => match read_page(&page) {
                    Err(x) => (FollowedFeed::Done, Action::Finish(Err(x))),
                    Ok(offset) => {
                        let name = user.get_username();
                        (FollowedFeed::AwaitFollowed { user, offset }, Action::List(Listing::FollowedNames { follower: name }))
                    },
                },
            },
            FollowedFeed::AwaitFollowed { user, offset } => match e {
                Event::Names(Some(creators)) => {
                    let name = user.get_username();
                    (FollowedFeed::AwaitRooms { user, offset, creators }, Action::List(Listing::FeedRooms { user: name }))
                },
                _ => (FollowedFeed::Done, Action::Finish(Err(ApiError::InternalServer))),
            },
            FollowedFeed::AwaitRooms { user, offset, creators } => match e {
                Event::Names(Some(rooms)) => (
                    FollowedFeed::AwaitPosts { user },
                    Action::List(Listing::FeedPosts { creators, rooms, offset }),
                ),
                _ => (FollowedFeed::Done, Action::Finish(Err(ApiError::InternalServer))),
            },
            FollowedFeed::AwaitPosts { user } => match e {
                Event::Posts(Some(posts)) => (FollowedFeed::AwaitDescribed, Action::Describe { user, posts }),
                _ => (FollowedFeed::Done, Action::Finish(Err(ApiError::InternalServer))),
            },
            FollowedFeed::AwaitDescribed => match e {
                Event::Described(v) => (FollowedFeed::Done, Action::Finish(Ok(Reply::Posts(v)))),
                _ => (FollowedFeed::Done, Action::Finish(Err(ApiError::InternalServer))),
            },
            FollowedFeed::Done => (FollowedFeed::Done, Action::Finish(Err(ApiError::InternalServer))),
        }
    }
}

pub fn fetch_followed_feed(page: Option<String>) -> (r: (FollowedFeed, Action<Outcome>))
    ensures
        r == (FollowedFeed::AwaitUser { page }, Action::<Outcome>::Authenticate),
{
    (FollowedFeed::AwaitUser { page }, Action::Authenticate)
}

/// One page of the users who follow the requesting user (`followers`), or of
/// those the requesting user follows.
pub enum FollowList {
    AwaitUser { page: Option<String>, followers: bool },
    AwaitNames,
    AwaitUsers { count: usize },
    Done,
}

/// The listing behind a follow list.
pub open spec fn follow_listing(followers: bool, user: User, offset: i64) -> Listing {
    if followers {
        Listing::Followers { followed: user.username, offset }
    } else {
        Listing::FollowedPage { follower: user.username, offset }
    }
}

impl FollowList {
    pub open spec fn admits(&self, e: &Event) -> bool {
        match self {
            FollowList::AwaitUser { page, .. } => e matches Event::Authenticated(Some(_)) ==> page_fits(*page),
            _ => true,
        }
    }

    pub fn accepts(&self, e: &Event) -> (r: bool)
        ensures
            r == self.admits(e),
    {
        match self {
            FollowList::AwaitUser { page, .. } => match e {
                Event::Authenticated(Some(_)) => page_in_range(page),
                _ => true,
            },
            _ => true,
        }
    }

    /// The steps of the machine. Once the names are listed, each user is read;
    /// a name without a user makes the request fail with `UserDoesNotExist`.
    pub open spec fn steps_to(self, e: Event, r: (FollowList, Action<Outcome>)) -> bool {
        match self {
            FollowList::AwaitUser { page, followers } => match authenticated(e) {
                Err(x) => r == (FollowList::Done, fail(x)),
                Ok(user) => match page_offset(page) {
                    Err(x) => r == (FollowList::Done, fail(x)),
                    Ok(offset) => r == (FollowList::AwaitNames, Action::<Outcome>::List(follow_listing(followers, user, offset))),
                },
            },
            FollowList::AwaitNames => match e {
                Event::Names(Some(names)) => r == (FollowList::AwaitUsers { count: names@.len() as usize }, Action::<Outcome>::FetchUsers(names)),
                _ => r == (FollowList::Done, fail(ApiError::InternalServer)),
            },
            FollowList::AwaitUsers { count } => match e {
                Event::UsersByName(ls) => if ls@.len() != count {
                    r == (FollowList::Done, fail(ApiError::InternalServer))
                } else if !all_found(ls@) {
                    r == (FollowList::Done, fail(ApiError::UserDoesNotExist))
                } else {
                    r.0 == FollowList::Done && (r.1 matches Action::Finish(Ok(Reply::People(v))) && v@ == ls@.map_values(
                        |l: Lookup<User>| user_query_of(found_value(l)),
                    ))
                },
                _ => r == (FollowList::Done, fail(ApiError::InternalServer)),
            },
            FollowList::Done => r == (FollowList::Done, fail(ApiError::InternalServer)),
        }
    }

    pub fn step(self, e: Event) -> (r: (FollowList, Action<Outcome>))
        requires
            self.admits(&e),
        ensures
            self.steps_to(e, r),
    {
        match self {
            FollowList::AwaitUser { page, followers } => match authenticated_user(e) {
                Err(x) => (FollowList::Done, Action::Finish(Err(x))),
                Ok(user) => match read_page(&page) {
                    Err(x) => (FollowList::Done, Action::Finish(Err(x))),
                    Ok(offset) => {
                        let listing = if followers {
                            Listing::Followers { followed: user.get_username(), offset }
                        } else {
                            Listing::FollowedPage { follower: user.get_username(), offset }
                        };
                        (FollowList::AwaitNames, Action::List(listing))
                    },
                },
            },
            FollowList::AwaitNames => match e {
                Event::Names(Some(names)) => {
                    let count = names.len();
                    (FollowList::AwaitUsers { count }, Action::FetchUsers(names))
                },
                _ => (FollowList::Done, Action::Finish(Err(ApiError::InternalServer))),
            },
            FollowList::AwaitUsers { count } => match e {
                Event::UsersByName(ls) => {
                    if ls.len() != count {
                        (FollowList::Done, Action::Finish(Err(ApiError::InternalServer)))
                    } else {
                        match user_queries_from_lookups(ls) {
                            Err(x) => (FollowList::Done, Action::Finish(Err(x))),
                            Ok(v) => (FollowList::Done, Action::Finish(Ok(Reply::People(v)))),
                        }
                    }
                },
                _ => (FollowList::Done, Action::Finish(Err(ApiError::InternalServer))),
            },
            FollowList::Done => (FollowList::Done, Action::Finish(Err(ApiError::InternalServer))),
        }
    }
}

pub fn fetch_followers(page: Option<String>) -> (r: (FollowList, Action<Outcome>))
    ensures
        r == (FollowList::AwaitUser { page, followers: true }, Action::<Outcome>::Authenticate),
{
    (FollowList::AwaitUser { page, followers: true }, Action::Authenticate)
}

pub fn fetch_followed(page: Option<String>) -> (r: (FollowList, Action<Outcome>))
    ensures
        r == (FollowList::AwaitUser { page, followers: false }, Action::<Outcome>::Authenticate),
{
    (FollowList::AwaitUser { page, followers: false }, Action::Authenticate)
}

/// Unfollowing undoes following: the row that an unfollow deletes is the one
/// that the follow inserted, and the two users that it saves are the two users
/// as they were before the follow.
pub proof fn law_unfollow_undoes_follow(user: User, target: User, f: Following)
    requires
        user.followed < i32::MAX,
        target.followers < i32::MAX,
    ensures
        (Follow::AwaitExisting { user, target }).next(Event::FollowingRow(Lookup::Missing)).1
            == Action::<Outcome>::Write(
            Change::InsertFollowing(Following { follower: user.username, followed: target.username }),
        ),
        (Unfollow::AwaitExisting { user: with_followed_added(user), target: with_follower_added(target) }).next(
            Event::FollowingRow(Lookup::Found(f)),
        ).1 == Action::<Outcome>::Write(
            Change::DeleteFollowing { follower: user.username, followed: target.username },
        ),
        ({
            let followed = (Follow::AwaitInsert { user, target }).next(Event::Written(true));
            let unfollowed = (Unfollow::AwaitDelete {
                user: with_followed_added(user),
                target: with_follower_added(target),
            }).next(Event::Written(true));
            &&& followed.1 == Action::<Outcome>::Write(Change::SaveUser(with_follower_added(target)))
            &&& followed.0.next(Event::Written(true)).1 == Action::<Outcome>::Write(
                Change::SaveUser(with_followed_added(user)),
            )
            &&& unfollowed.1 == Action::<Outcome>::Write(Change::SaveUser(target))
            &&& unfollowed.0.next(Event::Written(true)).1 == Action::<Outcome>::Write(Change::SaveUser(user))
        }),
{
}

/// Whether the requesting user follows `username` is answered from the
/// following row of the two, read by their names: true exactly when the row
/// is found, false exactly when it is missing, and a failed read is an
/// internal error.
pub proof fn law_is_following_answers_the_row(username: String, user: User, l: Lookup<Following>)
    ensures
        ({
            let (s, a) = (IsFollowing::AwaitUser { username }).next(Event::Authenticated(Some(user)));
            let b = s.next(Event::FollowingRow(l)).1;
            &&& a == Action::<Outcome>::Fetch(Key::Following { follower: user.username, followed: username })
            &&& (l is Found <==> b == reply(Reply::IsFollowing(IsFollowingResponse { is_following: true })))
            &&& (l is Missing <==> b == reply(Reply::IsFollowing(IsFollowingResponse { is_following: false })))
            &&& (l is Failed <==> b == fail(ApiError::InternalServer))
        }),
{
}

/// The followed feed lists the names the requesting user follows, then the
/// rooms whose posts the user may see, then the posts of those names outside
/// every room or in those rooms, from the page's first row.
pub proof fn law_followed_feed_lists_followed_creators(
    page: Option<String>,
    user: User,
    creators: Vec<String>,
    rooms: Vec<String>,
)
    requires
        page_fits(page),
        page_offset(page) is Ok,
    ensures
        ({
            let (s1, a1) = (FollowedFeed::AwaitUser { page }).next(Event::Authenticated(Some(user)));
            let (s2, a2) = s1.next(Event::Names(Some(creators)));
            let a3 = s2.next(Event::Names(Some(rooms))).1;
            &&& a1 == Action::<Outcome>::List(Listing::FollowedNames { follower: user.username })
            &&& a2 == Action::<Outcome>::List(Listing::FeedRooms { user: user.username })
            &&& a3 == Action::<Outcome>::List(
                Listing::FeedPosts { creators, rooms, offset: page_offset(page)->Ok_0 },
            )
        }),
{
}

/// The followers list pages through the users who follow the requesting
/// user, the followed list through those the requesting user follows; the
/// answer lists each named user in order, and a name without a user makes
/// the request fail with `UserDoesNotExist`.
pub proof fn law_follow_lists_are_the_users(
    page: Option<String>,
    followers: bool,
    user: User,
    names: Vec<String>,
    found: Vec<Lookup<User>>,
    r1: (FollowList, Action<Outcome>),
    r2: (FollowList, Action<Outcome>),
    r3: (FollowList, Action<Outcome>),
)
    requires
        page_offset(page) is Ok,
        (FollowList::AwaitUser { page, followers }).steps_to(Event::Authenticated(Some(user)), r1),
        r1.0.steps_to(Event::Names(Some(names)), r2),
        r2.0.steps_to(Event::UsersByName(found), r3),
        found@.len() == names@.len(),
    ensures
        followers ==> r1.1 == Action::<Outcome>::List(
            Listing::Followers { followed: user.username, offset: page_offset(page)->Ok_0 },
        ),
        !followers ==> r1.1 == Action::<Outcome>::List(
            Listing::FollowedPage { follower: user.username, offset: page_offset(page)->Ok_0 },
        ),
        r2.1 == Action::<Outcome>::FetchUsers(names),
        (exists|i: int| 0 <= i < found@.len() && !(found@[i] is Found)) ==> r3.1 == fail(ApiError::UserDoesNotExist),
        (forall|i: int| 0 <= i < found@.len() ==> found@[i] is Found) ==> (r3.1 matches Action::Finish(
            Ok(Reply::People(v)),
        ) && v@.len() == found@.len() && (forall|i: int|
            0 <= i < v@.len() ==> (found@[i] matches Lookup::Found(u) && #[trigger] v@[i].username == u.username
                && v@[i].public_name == u.public_name && v@[i].biography == u.biography))),
{
    assert(names@.len() == names.len());
    assert(found@.len() == (names@.len() as usize));
    if exists|i: int| 0 <= i < found@.len() && !(found@[i] is Found) {
        assert(!all_found(found@));
    }
    if forall|i: int| 0 <= i < found@.len() ==> found@[i] is Found {
        assert(all_found(found@));
        if let Action::Finish(Ok(Reply::People(v))) = r3.1 {
            assert forall|i: int| 0 <= i < v@.len() implies (found@[i] matches Lookup::Found(u) && #[trigger] v@[i].username
                == u.username && v@[i].public_name == u.public_name && v@[i].biography == u.biography) by {
                assert(v@[i] == user_query_of(found_value(found@[i])));
            }
        }
    }
}

/// Following a user notifies that user, from the requesting user with the
/// count already raised, before the transaction is committed.
pub proof fn law_follow_notifies_the_followed_user(user: User, target_name: String)
    ensures
        (Follow::AwaitUserSave { user, target_name }).next(Event::Written(true)) == (
            Follow::AwaitSpawn,
            Action::<Outcome>::Spawn(Task::Notify(NotifyRequest::Follow { emitter: user, receiver: target_name })),
        ),
        (Follow::AwaitSpawn).next(Event::Spawned).1 == Action::<Outcome>::Commit,
{
}

/// Unfollowing a user who is not followed is refused: the transaction is
/// rolled back before anything is written.
pub proof fn law_unfollow_needs_a_following(user: User, target: User)
    ensures
        (Unfollow::AwaitExisting { user, target }).next(Event::FollowingRow(Lookup::Missing)) == (
            Unfollow::AwaitRollback,
            Action::<Outcome>::Rollback,
        ),
        (Unfollow::AwaitRollback).next(Event::Written(true)).1 == fail(ApiError::InternalServer),
{
}

/// Following raises the followed user's follower count and the requesting
/// user's followed count by exactly one each; unfollowing lowers them by
/// exactly one each; every other field stays as it was.
pub proof fn law_follow_counts_move_by_one(user: User, target: User)
    requires
        i32::MIN < user.followed < i32::MAX,
        i32::MIN < target.followers < i32::MAX,
    ensures
        ({
            let f = (Follow::AwaitInsert { user, target }).next(Event::Written(true));
            let u = (Unfollow::AwaitDelete { user, target }).next(Event::Written(true));
            &&& f.1 == Action::<Outcome>::Write(Change::SaveUser(User { followers: (target.followers + 1) as i32, ..target }))
            &&& f.0.next(Event::Written(true)).1 == Action::<Outcome>::Write(
                Change::SaveUser(User { followed: (user.followed + 1) as i32, ..user }),
            )
            &&& u.1 == Action::<Outcome>::Write(Change::SaveUser(User { followers: (target.followers - 1) as i32, ..target }))
            &&& u.0.next(Event::Written(true)).1 == Action::<Outcome>::Write(
                Change::SaveUser(User { followed: (user.followed - 1) as i32, ..user }),
            )
        }),
{
}

} // verus!
