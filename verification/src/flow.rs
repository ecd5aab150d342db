//! The vocabulary between the request machines and the world outside them.
//!
//! A request handler is a state machine. Each step takes what the outside
//! world reported (an [`Event`]) and returns the next state and an
//! [`Action`]: a row to fetch, a listing to load, a change to write, a task to
//! start, or the final answer. The HTTP layer runs the actions against the
//! database and the file system and feeds the results back.
use vstd::prelude::*;

use crate::api::{
    RatingInteraction,
    GetUserDataResponse, IsFollowingResponse, JoinedUserResponse, PostQueryResponse,
    RoomQueryResponse, SearchResultResponse, UserQueryResponse, WhoAmIResponse,
};
use crate::api::file_upload::FileID;
use crate::error::ApiError;
use crate::models::{
    AccountKey, Ban, Bookmark, Following, Membership, Notification, NotificationTimeout, Post, Rating,
    Room, Session, User,
};
use crate::text::parse_i64;
use crate::text::parse_i64_text;

verus! {

/// The outcome of reading one row by its key.
pub enum Lookup<T> {
    Found(T),
    /// No row has that key.
    Missing,
    /// The database failed for another reason.
    Failed,
}

/// A row that a handler asks for by its key.
pub enum Key {
    User(String),
    Post(String),
    Room(String),
    Session(String),
    AccountKey(String),
    Membership { user: String, room: String },
    Ban { user: String, room: String },
    Bookmark { user: String, post: String },
    Following { follower: String, followed: String },
    Rating { user: String, post: String },
    NotificationTimeout { notification_type: String, emitter: String, receiver: String },
}

/// The number of rows that one page of a listing holds.
pub const PAGE_SIZE: i64 = 20;

/// A query for many rows. Pages hold `PAGE_SIZE` rows and start at `offset`.
/// A `term` is matched as SQL `LIKE '%term%'`.
pub enum Listing {
    /// Posts outside every room that answer no other post, newest first.
    PublicSpace { offset: i64 },
    /// Posts of a room, newest first.
    RoomPosts { room: String, offset: i64 },
    /// Posts that answer `parent`, best rated first.
    Comments { parent: String, offset: i64 },
    /// Posts that `user` bookmarked.
    Bookmarked { user: String, offset: i64 },
    /// Every username that `follower` follows.
    FollowedNames { follower: String },
    /// The rooms of every membership in a room that is public or that `user`
    /// belongs to.
    FeedRooms { user: String },
    /// Posts by one of `creators`, outside every room or in one of `rooms`,
    /// newest first.
    FeedPosts { creators: Vec<String>, rooms: Vec<String>, offset: i64 },
    /// The rooms that `user` belongs to, as far as they still exist.
    JoinedRoomIds { user: String },
    /// Posts by `creator`, outside every room or in one of `rooms`, newest
    /// first.
    CreatorPosts { creator: String, rooms: Vec<String>, offset: i64 },
    /// The rooms named in `user`'s memberships.
    MembershipRoomIds { user: String },
    /// Posts whose body matches `term`, outside every room, in one of
    /// `rooms`, or by `user`.
    SearchPosts { term: String, rooms: Vec<String>, user: String, offset: i64 },
    /// Users whose username or public name matches `term`.
    SearchUsers { term: String, offset: i64 },
    /// Public rooms whose name matches `term`.
    SearchRooms { term: String, offset: i64 },
    /// One page of the usernames that follow `followed`.
    Followers { followed: String, offset: i64 },
    /// One page of the usernames that `follower` follows.
    FollowedPage { follower: String, offset: i64 },
    /// The notifications of `user`, newest first.
    Notifications { user: String, offset: i64 },
    /// Every room that `user` belongs to.
    JoinedRooms { user: String },
    /// The members of a room.
    RoomMembers { room: String, offset: i64 },
    /// The members of a room whose username matches `term`.
    RoomMemberSearch { room: String, term: String },
    /// The users banned from a room.
    BannedUsers { room: String, offset: i64 },
    /// The users banned from a room whose username matches `term`.
    BannedUserSearch { room: String, term: String },
}

/// A change to the database.
pub enum Change {
    InsertUser(User),
    SaveUser(User),
    InsertPost(Post),
    SavePost(Post),
    DeletePost(String),
    InsertRoom(Room),
    SaveRoom(Room),
    DeleteRoom(String),
    InsertSession(Session),
    DeleteSession(String),
    MarkKeyUsed(String),
    InsertMembership(Membership),
    ReplaceMembership(Membership),
    DeleteMembership { user: String, room: String },
    ReplaceBan(Ban),
    DeleteBan { user: String, room: String },
    InsertBookmark(Bookmark),
    DeleteBookmark { user: String, post: String },
    InsertFollowing(Following),
    DeleteFollowing { follower: String, followed: String },
    ReplaceRating(Rating),
    DeleteRating { user: String, post: String },
    SaveNotificationTimeout(NotificationTimeout),
    ReplaceNotificationTimeout(NotificationTimeout),
    InsertNotification(Notification),
    /// Deletes those of `ids` that are notifications of `user`.
    DeleteNotifications { user: String, ids: Vec<String> },
}

/// A notification to send, subject to the cooldown between two
/// notifications of the same type from one user to another.
pub enum NotifyRequest {
    /// `emitter` now follows `receiver`.
    Follow { emitter: User, receiver: String },
    /// `emitter` set their rating of the post `post_id` of `receiver`.
    Rating { emitter: User, receiver: String, post_id: String, rating: RatingInteraction },
}

/// Work started in the background; the request goes on without waiting.
/// Failures of the background work are ignored.
pub enum Task {
    Notify(NotifyRequest),
    /// Deletes every rating of a post.
    DeleteRatingsOf(String),
    /// Deletes every membership of a room, then every post in it.
    ClearRoom(String),
}

/// The answer of a request that succeeded.
pub enum Reply {
    Empty,
    WhoAmI(WhoAmIResponse),
    SessionId(String),
    PostId(String),
    RoomId(String),
    AppendageId(String),
    Post(PostQueryResponse),
    Posts(Vec<PostQueryResponse>),
    Rooms(Vec<Room>),
    Members(Vec<JoinedUserResponse>),
    People(Vec<UserQueryResponse>),
    IsFollowing(IsFollowingResponse),
    UserData(GetUserDataResponse),
    Notifications(Vec<Notification>),
    Search(SearchResultResponse),
}

/// What a machine asks the outside world to do next.
pub enum Action<O> {
    /// Check the session cookie of the request; answered by `Authenticated`.
    Authenticate,
    /// Read one row; answered by the `...Row` event of its kind.
    Fetch(Key),
    /// Run a listing; answered by the event of the rows it returns.
    List(Listing),
    /// Show each of `posts` to `user`; answered by `Described`.
    Describe { user: User, posts: Vec<Post> },
    /// Read the users with the given names, each on its own; answered by
    /// `UsersByName`.
    FetchUsers(Vec<String>),
    /// Show `post` to `user`; answered by `DescribedOne`.
    DescribeOne { user: User, post: Post },
    /// Show each of `rooms` to `user`; answered by `RoomsDescribed`.
    DescribeRooms { user: User, rooms: Vec<Room> },
    /// Apply a change; answered by `Written`.
    Write(Change),
    /// Start, commit or roll back an exclusive transaction; answered by `Written`.
    Begin,
    Commit,
    Rollback,
    /// Start a task in the background; answered by `Spawned`.
    Spawn(Task),
    /// Read the next part of a multipart upload; answered by `Part`.
    NextPart,
    /// Store an uploaded file under `storage/appendage/file/<file_id>`; answered by `Stored`.
    StoreFile { file_id: String, content: Vec<u8> },
    /// Store the index of an appendage, its id and its files, under
    /// `storage/appendage/<appendage_id>`; answered by `Stored`.
    StoreAppendage { appendage_id: String, files: Vec<FileID> },
    /// Store a profile picture under `storage/profile_picture/<username>`;
    /// answered by `Stored`.
    StoreProfilePicture { username: String, content: Vec<u8> },
    /// Store a room banner under `storage/room_banner/<room_id>`; answered by `Stored`.
    StoreRoomBanner { room_id: String, content: Vec<u8> },
    /// The machine is done; this is its result.
    Finish(O),
}

/// One part of a multipart upload.
pub enum Part {
    /// The stream has no more parts.
    End,
    /// The stream failed to yield the next part.
    Failed,
    /// A part arrived. `content_type` is its declared type; `content` is `None`
    /// when reading its body failed.
    Received { content_type: Option<String>, content: Option<Vec<u8>> },
}

/// What the outside world reports back.
pub enum Event {
    Authenticated(Option<User>),
    UserRow(Lookup<User>),
    PostRow(Lookup<Post>),
    RoomRow(Lookup<Room>),
    SessionRow(Lookup<Session>),
    AccountKeyRow(Lookup<AccountKey>),
    MembershipRow(Lookup<Membership>),
    BanRow(Lookup<Ban>),
    BookmarkRow(Lookup<Bookmark>),
    FollowingRow(Lookup<Following>),
    RatingRow(Lookup<Rating>),
    NotificationTimeoutRow(Lookup<NotificationTimeout>),
    /// Rows of a listing; `None` when the query failed.
    Posts(Option<Vec<Post>>),
    Names(Option<Vec<String>>),
    Users(Option<Vec<User>>),
    Rooms(Option<Vec<Room>>),
    Notifications(Option<Vec<Notification>>),
    /// The lookups of a `FetchUsers`, in the order of the names.
    UsersByName(Vec<Lookup<User>>),
    Described(Vec<PostQueryResponse>),
    DescribedOne(PostQueryResponse),
    RoomsDescribed(Vec<RoomQueryResponse>),
    /// Whether a change (or `Begin`, `Commit`, `Rollback`) succeeded.
    Written(bool),
    Spawned,
    Part(Part),
    /// Whether a file was stored.
    Stored(bool),
}

/// The page number that a query string's `page` parameter names.
pub open spec fn page_number(page: Option<String>) -> Result<int, ApiError> {
    match page {
        None => Err(ApiError::InvalidQuery),
        Some(p) => match parse_i64(p@) {
            None => Err(ApiError::InvalidQuery),
            Some(v) => Ok(v),
        },
    }
}

/// The offset of the page named by `page` can be computed in an `i64`.
pub open spec fn page_fits(page: Option<String>) -> bool {
    match page_number(page) {
        Ok(v) => i64::MIN <= PAGE_SIZE * v <= i64::MAX,
        Err(_) => true,
    }
}

/// The offset of the first row of the page that `page` names, or
/// `InvalidQuery` when `page` is absent or not a number.
pub open spec fn page_offset(page: Option<String>) -> Result<i64, ApiError> {
    match page_number(page) {
        Ok(v) => Ok((PAGE_SIZE * v) as i64),
        Err(e) => Err(e),
    }
}

/// Reads the `page` parameter of a query string and turns it into the offset
/// of the page's first row.
pub fn read_page(page: &Option<String>) -> (r: Result<i64, ApiError>)
    requires
        page_fits(*page),
    ensures
        r == page_offset(*page),
{
    match page {
        None => Err(ApiError::InvalidQuery),
        Some(p) => match parse_i64_text(p.as_str()) {
            None => Err(ApiError::InvalidQuery),
            Some(v) => Ok(PAGE_SIZE * v),
        },
    }
}

/// Whether the offset of the page named by `page` fits in an `i64`.
pub fn page_in_range(page: &Option<String>) -> (r: bool)
    ensures
        r == page_fits(*page),
{
    match page {
        None => true,
        Some(p) => match parse_i64_text(p.as_str()) {
            None => true,
            Some(v) => (v as i128) * 20 >= i64::MIN as i128 && (v as i128) * 20 <= i64::MAX as i128,
        },
    }
}

/// What a request handler finishes with.
pub type Outcome = Result<Reply, ApiError>;

/// A request's answer when something failed.
pub open spec fn fail(e: ApiError) -> Action<Outcome> {
    Action::Finish(Err(e))
}

/// A request's answer when it succeeded.
pub open spec fn reply(r: Reply) -> Action<Outcome> {
    Action::Finish(Ok(r))
}

/// The user an `Authenticated` event names: `InvalidSession` when there is
/// none, `InternalServer` for any other event.
pub open spec fn authenticated(e: Event) -> Result<User, ApiError> {
    match e {
        Event::Authenticated(Some(u)) => Ok(u),
        Event::Authenticated(None) => Err(ApiError::InvalidSession),
        _ => Err(ApiError::InternalServer),
    }
}

pub fn authenticated_user(e: Event) -> (r: Result<User, ApiError>)
    ensures
        r == authenticated(e),
{
    match e {
        Event::Authenticated(Some(u)) => Ok(u),
        Event::Authenticated(None) => Err(ApiError::InvalidSession),
        _ => Err(ApiError::InternalServer),
    }
}

/// The post a lookup found, or `missing` when it found none.
pub open spec fn found_post(e: Event, missing: ApiError) -> Result<Post, ApiError> {
    match e {
        Event::PostRow(Lookup::Found(p)) => Ok(p),
        Event::PostRow(_) => Err(missing),
        _ => Err(ApiError::InternalServer),
    }
}

pub fn post_found(e: Event, missing: ApiError) -> (r: Result<Post, ApiError>)
    ensures
        r == found_post(e, missing),
{
    match e {
        Event::PostRow(Lookup::Found(p)) => Ok(p),
        Event::PostRow(_) => Err(missing),
        _ => Err(ApiError::InternalServer),
    }
}

/// The room a lookup found, or `missing` when it found none.
pub open spec fn found_room(e: Event, missing: ApiError) -> Result<Room, ApiError> {
    match e {
        Event::RoomRow(Lookup::Found(r)) => Ok(r),
        Event::RoomRow(_) => Err(missing),
        _ => Err(ApiError::InternalServer),
    }
}

pub fn room_found(e: Event, missing: ApiError) -> (r: Result<Room, ApiError>)
    ensures
        r == found_room(e, missing),
{
    match e {
        Event::RoomRow(Lookup::Found(r)) => Ok(r),
        Event::RoomRow(_) => Err(missing),
        _ => Err(ApiError::InternalServer),
    }
}

/// The user a lookup found, or `missing` when it found none.
pub open spec fn found_user(e: Event, missing: ApiError) -> Result<User, ApiError> {
    match e {
        Event::UserRow(Lookup::Found(u)) => Ok(u),
        Event::UserRow(_) => Err(missing),
        _ => Err(ApiError::InternalServer),
    }
}

pub fn user_found(e: Event, missing: ApiError) -> (r: Result<User, ApiError>)
    ensures
        r == found_user(e, missing),
{
    match e {
        Event::UserRow(Lookup::Found(u)) => Ok(u),
        Event::UserRow(_) => Err(missing),
        _ => Err(ApiError::InternalServer),
    }
}

/// Whether the change just applied succeeded; any other event is an
/// internal error.
pub open spec fn write_ok(e: Event) -> Result<(), ApiError> {
    match e {
        Event::Written(true) => Ok(()),
        _ => Err(ApiError::InternalServer),
    }
}

pub fn written(e: Event) -> (r: Result<(), ApiError>)
    ensures
        r == write_ok(e),
{
    match e {
        Event::Written(true) => Ok(()),
        _ => Err(ApiError::InternalServer),
    }
}

} // verus!
