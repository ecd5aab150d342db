//! Searching posts, users and rooms by a term.
use vstd::prelude::*;

use crate::api::{user_queries, user_query_of, PostQueryResponse, RoomQueryResponse, SearchResultResponse};
use crate::error::ApiError;
use crate::flow::{
    authenticated, authenticated_user, fail, page_fits, page_in_range, page_offset, read_page, reply, Action,
    Event, Listing, Outcome, Reply,
};
use crate::models::{Post, Room, User};

verus! {

/// What a search looks for.
#[derive(PartialEq, Eq, Structural, Clone, Copy)]
pub enum SearchKind {
    Posts,
    Users,
    Rooms,
}

/// One page of search results. The page number comes before the term; a
/// missing term is an `InvalidQuery`. Posts are searched outside every room,
/// in the rooms the user belongs to (a failed read of those counts as none)
/// and among the user's own posts; rooms only among the public ones.
pub enum Search {
    AwaitUser { kind: SearchKind, page: Option<String>, term: Option<String> },
    AwaitRoomIds { user: User, term: String, offset: i64 },
    AwaitPosts { user: User },
    AwaitDescribed,
    AwaitUsers,
    AwaitRooms { user: User },
    AwaitRoomsDescribed,
    Done,
}

/// The first step of a search once the user and the page are known.
pub open spec fn search_start(kind: SearchKind, user: User, term: String, offset: i64) -> (Search, Action<Outcome>) {
    match kind {
        SearchKind::Posts => (
            Search::AwaitRoomIds { user, term, offset },
            Action::List(Listing::MembershipRoomIds { user: user.username }),
        ),
        SearchKind::Users => (Search::AwaitUsers, Action::List(Listing::SearchUsers { term, offset })),
        SearchKind::Rooms => (Search::AwaitRooms { user }, Action::List(Listing::SearchRooms { term, offset })),
    }
}

fn start(kind: SearchKind, user: User, term: String, offset: i64) -> (r: (Search, Action<Outcome>))
    ensures
        r == search_start(kind, user, term, offset),
{
    match kind {
        SearchKind::Posts => {
            let name = user.get_username();
            (Search::AwaitRoomIds { user, term, offset }, Action::List(Listing::MembershipRoomIds { user: name }))
        },
        SearchKind::Users => (Search::AwaitUsers, Action::List(Listing::SearchUsers { term, offset })),
        SearchKind::Rooms => (Search::AwaitRooms { user }, Action::List(Listing::SearchRooms { term, offset })),
    }
}

impl Search {
    /// The page's offset fits in an `i64`.
    pub open spec fn admits(&self, e: &Event) -> bool {
        match self {
            Search::AwaitUser { page, .. } => e matches Event::Authenticated(Some(_)) ==> page_fits(*page),
            _ => true,
        }
    }

    pub fn accepts(&self, e: &Event) -> (r: bool)
        ensures
            r == self.admits(e),
    {
        match self {
            Search::AwaitUser { page, .. } => match e {
                Event::Authenticated(Some(_)) => page_in_range(page),
                _ => true,
            },
            _ => true,
        }
    }

    pub open spec fn steps_to(self, e: Event, r: (Search, Action<Outcome>)) -> bool {
        match self {
            Search::AwaitUser { kind, page, term } => match authenticated(e) {
                Err(x) => r == (Search::Done, fail(x)),
                Ok(user) => match page_offset(page) {
                    Err(x) => r == (Search::Done, fail(x)),
                    Ok(offset) => match term {
                        None => r == (Search::Done, fail(ApiError::InvalidQuery)),
                        Some(t) => r == search_start(kind, user, t, offset),
                    },
                },
            },
            Search::AwaitRoomIds { user, term, offset } => {
                let rooms = match e {
                    Event::Names(Some(rooms)) => rooms@,
                    _ => Seq::empty(),
                };
                &&& r.0 == (Search::AwaitPosts { user })
                &&& r.1 matches Action::List(Listing::SearchPosts { term: t, rooms: rs, user: u, offset: o })
                &&& t == term && rs@ == rooms && u == user.username && o == offset
            },
            Search::AwaitPosts { user } => match e {
                Event::Posts(Some(posts)) => r == (Search::AwaitDescribed, Action::<Outcome>::Describe { user, posts }),
                _ => r == (Search::Done, fail(ApiError::InternalServer)),
            },
            Search::AwaitDescribed => match e {
                Event::Described(v) => r == (Search::Done, reply(Reply::Search(SearchResultResponse::Posts(v)))),
                _ => r == (Search::Done, fail(ApiError::InternalServer)),
            },
            Search::AwaitUsers => match e {
                Event::Users(Some(users)) => {
                    &&& r.0 == Search::Done
                    &&& r.1 matches Action::Finish(Ok(Reply::Search(SearchResultResponse::Users(v))))
                    &&& v@ == users@.map_values(|u: User| user_query_of(u))
                },
                _ => r == (Search::Done, fail(ApiError::InternalServer)),
            },
            Search::AwaitRooms { user } => match e {
                Event::Rooms(Some(rooms)) => r == (Search::AwaitRoomsDescribed, Action::<Outcome>::DescribeRooms { user, rooms }),
                _ => r == (Search::Done, fail(ApiError::InternalServer)),
            },
            Search::AwaitRoomsDescribed => match e {
                Event::RoomsDescribed(v) => r == (Search::Done, reply(Reply::Search(SearchResultResponse::Rooms(v)))),
                _ => r == (Search::Done, fail(ApiError::InternalServer)),
            },
            Search::Done => r == (Search::Done, fail(ApiError::InternalServer)),
        }
    }

    pub fn step(self, e: Event) -> (r: (Search, Action<Outcome>))
        requires
            self.admits(&e),
        ensures
            self.steps_to(e, r),
    {
        match self {
            Search::AwaitUser { kind, page, term } => match authenticated_user(e) {
                Err(x) => (Search::Done, Action::Finish(Err(x))),
                Ok(user) => match read_page(&page) {
                    Err(x) => (Search::Done, Action::Finish(Err(x))),
                    Ok(offset) => match term {
                        None => (Search::Done, Action::Finish(Err(ApiError::InvalidQuery))),
                        Some(t) => start(kind, user, t, offset),
                    },
                },
            },
            Search::AwaitRoomIds { user, term, offset } => {
                let rooms: Vec<String> = match e {
                    Event::Names(Some(rooms)) => rooms,
                    _ => Vec::new(),
                };
                let name = user.get_username();
                (Search::AwaitPosts { user }, Action::List(Listing::SearchPosts { term, rooms, user: name, offset }))
            },
            Search::AwaitPosts { user } => match e {
                Event::Posts(Some(posts)) => (Search::AwaitDescribed, Action::Describe { user, posts }),
                _ => (Search::Done, Action::Finish(Err(ApiError::InternalServer))),
            },
            Search::AwaitDescribed => match e {
                Event::Described(v) => (Search::Done, Action::Finish(Ok(Reply::Search(SearchResultResponse::Posts(v))))),
                _ => (Search::Done, Action::Finish(Err(ApiError::InternalServer))),
            },
            Search::AwaitUsers => match e {
                Event::Users(Some(users)) => {
                    let v = user_queries(users);
                    (Search::Done, Action::Finish(Ok(Reply::Search(SearchResultResponse::Users(v)))))
                },
                _ => (Search::Done, Action::Finish(Err(ApiError::InternalServer))),
            },
            Search::AwaitRooms { user } => match e {
                Event::Rooms(Some(rooms)) => (Search::AwaitRoomsDescribed, Action::DescribeRooms { user, rooms }),
                _ => (Search::Done, Action::Finish(Err(ApiError::InternalServer))),
            },
            Search::AwaitRoomsDescribed => match e {
                Event::RoomsDescribed(v) => (Search::Done, Action::Finish(Ok(Reply::Search(SearchResultResponse::Rooms(v))))),
                _ => (Search::Done, Action::Finish(Err(ApiError::InternalServer))),
            },
            Search::Done => (Search::Done, Action::Finish(Err(ApiError::InternalServer))),
        }
    }
}

/// Starts a search of posts whose body contains `term`.
pub fn fetch_search_posts(page: Option<String>, term: Option<String>) -> (r: (Search, Action<Outcome>))
    ensures
        r == (Search::AwaitUser { kind: SearchKind::Posts, page, term }, Action::<Outcome>::Authenticate),
{
    (Search::AwaitUser { kind: SearchKind::Posts, page, term }, Action::Authenticate)
}

/// Starts a search of users whose username or public name contains `term`.
pub fn fetch_search_users(page: Option<String>, term: Option<String>) -> (r: (Search, Action<Outcome>))
    ensures
        r == (Search::AwaitUser { kind: SearchKind::Users, page, term }, Action::<Outcome>::Authenticate),
{
    (Search::AwaitUser { kind: SearchKind::Users, page, term }, Action::Authenticate)
}

/// Starts a search of public rooms whose name contains `term`.
pub fn fetch_search_rooms(page: Option<String>, term: Option<String>) -> (r: (Search, Action<Outcome>))
    ensures
        r == (Search::AwaitUser { kind: SearchKind::Rooms, page, term }, Action::<Outcome>::Authenticate),
{
    (Search::AwaitUser { kind: SearchKind::Rooms, page, term }, Action::Authenticate)
}

/// A search of rooms lists the public rooms whose name holds the term, from
/// the page's first row, shows each to the requesting user, and answers with
/// those rooms.
pub proof fn law_room_search_answers_rooms(
    page: Option<String>,
    t: String,
    user: User,
    rooms: Vec<Room>,
    shown: Vec<RoomQueryResponse>,
    r1: (Search, Action<Outcome>),
    r2: (Search, Action<Outcome>),
    r3: (Search, Action<Outcome>),
)
    requires
        page_offset(page) is Ok,
        (Search::AwaitUser { kind: SearchKind::Rooms, page, term: Some(t) }).steps_to(Event::Authenticated(Some(user)), r1),
        r1.0.steps_to(Event::Rooms(Some(rooms)), r2),
        r2.0.steps_to(Event::RoomsDescribed(shown), r3),
    ensures
        r1.1 == Action::<Outcome>::List(Listing::SearchRooms { term: t, offset: page_offset(page)->Ok_0 }),
        r2.1 == (Action::<Outcome>::DescribeRooms { user, rooms }),
        r3.1 == reply(Reply::Search(SearchResultResponse::Rooms(shown))),
{
}

/// A search of users lists the users whose username or public name holds the
/// term, from the page's first row, and answers with each of them, in order.
pub proof fn law_user_search_answers_users(
    page: Option<String>,
    t: String,
    user: User,
    users: Vec<User>,
    r1: (Search, Action<Outcome>),
    r2: (Search, Action<Outcome>),
)
    requires
        page_offset(page) is Ok,
        (Search::AwaitUser { kind: SearchKind::Users, page, term: Some(t) }).steps_to(Event::Authenticated(Some(user)), r1),
        r1.0.steps_to(Event::Users(Some(users)), r2),
    ensures
        r1.1 == Action::<Outcome>::List(Listing::SearchUsers { term: t, offset: page_offset(page)->Ok_0 }),
        (r2.1 matches Action::Finish(Ok(Reply::Search(SearchResultResponse::Users(v)))) && v@.len() == users@.len()
            && (forall|i: int|
            0 <= i < v@.len() ==> #[trigger] v@[i].username == users@[i].username && v@[i].public_name
                == users@[i].public_name && v@[i].biography == users@[i].biography)),
{
}

/// A search of posts reads the requesting user's rooms (none when that read
/// fails), lists the posts whose body holds the term among those outside
/// every room, in those rooms, or by the user, from the page's first row,
/// shows each to the user and answers with those posts.
pub proof fn law_post_search_answers_posts(
    page: Option<String>,
    t: String,
    user: User,
    names: Option<Vec<String>>,
    posts: Vec<Post>,
    shown: Vec<PostQueryResponse>,
    r1: (Search, Action<Outcome>),
    r2: (Search, Action<Outcome>),
    r3: (Search, Action<Outcome>),
    r4: (Search, Action<Outcome>),
)
    requires
        page_offset(page) is Ok,
        (Search::AwaitUser { kind: SearchKind::Posts, page, term: Some(t) }).steps_to(Event::Authenticated(Some(user)), r1),
        r1.0.steps_to(Event::Names(names), r2),
        r2.0.steps_to(Event::Posts(Some(posts)), r3),
        r3.0.steps_to(Event::Described(shown), r4),
    ensures
        r1.1 == Action::<Outcome>::List(Listing::MembershipRoomIds { user: user.username }),
        (r2.1 matches Action::List(Listing::SearchPosts { term, rooms, user: u, offset }) && term == t && u
            == user.username && offset == page_offset(page)->Ok_0 && rooms@ == (match names {
            Some(n) => n@,
            None => Seq::empty(),
        })),
        r3.1 == (Action::<Outcome>::Describe { user, posts }),
        r4.1 == reply(Reply::Search(SearchResultResponse::Posts(shown))),
{
}

} // verus!
