//! Request handlers and the values they answer with.
use vstd::prelude::*;

use crate::error::ApiError;
use crate::flow::{authenticated, authenticated_user, fail, reply, Action, Event, Key, Lookup, Outcome, Reply};
use crate::models::{copy_opt, Membership, Post, Rating, Room, User};

pub mod bookmark;
pub mod feed;
pub mod file_upload;
pub mod follow;
pub mod notification;
pub mod post;
pub mod public_space;
pub mod rating;
pub mod room;
pub mod search;
pub mod thread;
pub mod user_data;

verus! {

/// What `who_am_i` answers: the authenticated user's public profile.
pub struct WhoAmIResponse {
    pub username: String,
    pub public_name: String,
    pub biography: String,
}

impl WhoAmIResponse {
    pub fn from_user(user: User) -> (r: Self)
        ensures
            r == (WhoAmIResponse {
                username: user.username,
                public_name: user.public_name,
                biography: user.biography,
            }),
    {
        WhoAmIResponse { username: user.username, public_name: user.public_name, biography: user.biography }
    }
}

/// Answers with the profile of the user whose session the request carries.
pub enum WhoAmI {
    AwaitUser,
    Done,
}

impl WhoAmI {
    pub open spec fn admits(&self, e: &Event) -> bool {
        true
    }

    pub fn accepts(&self, e: &Event) -> (r: bool)
        ensures
            r == self.admits(e),
    {
        true
    }

    pub open spec fn next(self, e: Event) -> (WhoAmI, Action<Outcome>) {
        match self {
            WhoAmI::AwaitUser => match authenticated(e) {
                Err(x) => (WhoAmI::Done, fail(x)),
                Ok(u) => (
                    WhoAmI::Done,
                    reply(
                        Reply::WhoAmI(
                            WhoAmIResponse { username: u.username, public_name: u.public_name, biography: u.biography },
                        ),
                    ),
                ),
            },
            WhoAmI::Done => (WhoAmI::Done, fail(ApiError::InternalServer)),
        }
    }

    pub fn step(self, e: Event) -> (r: (WhoAmI, Action<Outcome>))
        requires
            self.admits(&e),
        ensures
            r == self.next(e),
    {
        match self {
            WhoAmI::AwaitUser => match authenticated_user(e) {
                Err(x) => (WhoAmI::Done, Action::Finish(Err(x))),
                Ok(u) => (WhoAmI::Done, Action::Finish(Ok(Reply::WhoAmI(WhoAmIResponse::from_user(u))))),
            },
            WhoAmI::Done => (WhoAmI::Done, Action::Finish(Err(ApiError::InternalServer))),
        }
    }
}

pub fn who_am_i() -> (r: (WhoAmI, Action<Outcome>))
    ensures
        r == (WhoAmI::AwaitUser, Action::<Outcome>::Authenticate),
{
    (WhoAmI::AwaitUser, Action::Authenticate)
}

/// How the requesting user has rated a post.
#[derive(Debug, Clone, Copy, PartialEq, Eq, Structural)]
pub enum RatingInteraction {
    Unrated,
    Upvote,
    Downvote,
}

/// The value that a rating adds to a post's score.
pub open spec fn rating_value(r: RatingInteraction) -> int {
    match r {
        RatingInteraction::Unrated => 0,
        RatingInteraction::Upvote => 1,
        RatingInteraction::Downvote => -1,
    }
}

/// The rating that a stored rating row stands for.
pub open spec fn interaction_of(value: Option<Rating>) -> RatingInteraction {
    match value {
        Some(r) => if r.is_upvote {
            RatingInteraction::Upvote
        } else {
            RatingInteraction::Downvote
        },
        None => RatingInteraction::Unrated,
    }
}

impl RatingInteraction {
    /// The change in a post's score when a user's rating moves from `self`
    /// to `other`.
    pub fn get_delta(&self, other: &Self) -> (r: i32)
        ensures
            r == rating_value(*other) - rating_value(*self),
    {
        let old: i32 = match self {
            RatingInteraction::Unrated => 0,
            RatingInteraction::Upvote => 1,
            RatingInteraction::Downvote => -1,
        };
        let new: i32 = match other {
            RatingInteraction::Unrated => 0,
            RatingInteraction::Upvote => 1,
            RatingInteraction::Downvote => -1,
        };
        new - old
    }

    /// The rating that a stored rating row (or its absence) stands for.
    pub fn from_rating(value: Option<Rating>) -> (r: Self)
        ensures
            r == interaction_of(value),
    {
        if let Some(rating) = value {
            if rating.is_upvote() {
                return RatingInteraction::Upvote;
            } else {
                return RatingInteraction::Downvote;
            }
        }
        RatingInteraction::Unrated
    }
}

impl From<Option<Rating>> for RatingInteraction {
    /// The rating that a stored rating row (or its absence) stands for.
    fn from(value: Option<Rating>) -> (r: Self) {
        RatingInteraction::from_rating(value)
    }
}

impl vstd::std_specs::convert::FromSpecImpl<Option<Rating>> for RatingInteraction {
    open spec fn obeys_from_spec() -> bool {
        true
    }

    open spec fn from_spec(v: Option<Rating>) -> RatingInteraction {
        interaction_of(v)
    }
}

/// No rating changes a score when kept as it is.
pub proof fn law_delta_of_unchanged_rating(a: RatingInteraction)
    ensures
        rating_value(a) - rating_value(a) == 0,
{
}

/// Changing a rating twice moves the score as changing it once from the first
/// rating to the last.
pub proof fn law_delta_composes(a: RatingInteraction, b: RatingInteraction, c: RatingInteraction)
    ensures
        (rating_value(b) - rating_value(a)) + (rating_value(c) - rating_value(b)) == rating_value(c)
            - rating_value(a),
{
}

/// A score is changed by at most two in either direction.
pub proof fn law_delta_bounded(a: RatingInteraction, b: RatingInteraction)
    ensures
        -2 <= rating_value(b) - rating_value(a) <= 2,
{
}

pub struct PostInteraction {
    pub rating: RatingInteraction,
}

/// A post as shown to one user: the post, how that user rated it, and the
/// post it reposts, if any.
pub struct PostQueryResponse {
    pub post: Post,
    pub interaction: PostInteraction,
    pub child: Option<Post>,
}

/// The rating that a rating lookup stands for; a failed lookup counts as no
/// rating.
pub open spec fn interaction_of_lookup(l: Lookup<Rating>) -> RatingInteraction {
    match l {
        Lookup::Found(r) => interaction_of(Some(r)),
        _ => RatingInteraction::Unrated,
    }
}

pub fn interaction_from_lookup(l: Lookup<Rating>) -> (r: RatingInteraction)
    ensures
        r == interaction_of_lookup(l),
{
    match l {
        Lookup::Found(r) => RatingInteraction::from_rating(Some(r)),
        _ => RatingInteraction::from_rating(None),
    }
}

/// Builds the view of a post for one user: it reads how the user rated the
/// post, then the post that it reposts. A failed read counts as absent.
pub enum DescribePost {
    AwaitRating { post: Post },
    AwaitChild { post: Post, rating: RatingInteraction },
    Done,
}

impl DescribePost {
    /// A finished machine takes no further event.
    pub open spec fn admits(&self, e: &Event) -> bool {
        !(self is Done)
    }

    pub fn accepts(&self, e: &Event) -> (r: bool)
        ensures
            r == self.admits(e),
    {
        !matches!(self, DescribePost::Done)
    }

    pub open spec fn next(self, e: Event) -> (DescribePost, Action<PostQueryResponse>) {
        match self {
            DescribePost::AwaitRating { post } => {
                let rating = match e {
                    Event::RatingRow(l) => interaction_of_lookup(l),
                    _ => RatingInteraction::Unrated,
                };
                match post.child {
                    Some(c) => (DescribePost::AwaitChild { post, rating }, Action::Fetch(Key::Post(c))),
                    None => (
                        DescribePost::Done,
                        Action::Finish(
                            PostQueryResponse { post, interaction: PostInteraction { rating }, child: None },
                        ),
                    ),
                }
            },
            DescribePost::AwaitChild { post, rating } => {
                let child = match e {
                    Event::PostRow(Lookup::Found(p)) => Some(p),
                    _ => None,
                };
                (
                    DescribePost::Done,
                    Action::Finish(PostQueryResponse { post, interaction: PostInteraction { rating }, child }),
                )
            },
            DescribePost::Done => (DescribePost::Done, Action::NextPart),
        }
    }

    pub fn step(self, e: Event) -> (r: (DescribePost, Action<PostQueryResponse>))
        requires
            self.admits(&e),
        ensures
            r == self.next(e),
    {
        match self {
            DescribePost::AwaitRating { post } => {
                let rating = match e {
                    Event::RatingRow(l) => interaction_from_lookup(l),
                    _ => RatingInteraction::Unrated,
                };
                match copy_opt(&post.child) {
                    Some(c) => (DescribePost::AwaitChild { post, rating }, Action::Fetch(Key::Post(c))),
                    None => (
                        DescribePost::Done,
                        Action::Finish(
                            PostQueryResponse { post, interaction: PostInteraction { rating }, child: None },
                        ),
                    ),
                }
            },
            DescribePost::AwaitChild { post, rating } => {
                let child = match e {
                    Event::PostRow(Lookup::Found(p)) => Some(p),
                    _ => None,
                };
                (
                    DescribePost::Done,
                    Action::Finish(PostQueryResponse { post, interaction: PostInteraction { rating }, child }),
                )
            },
            DescribePost::Done => {
                proof {
                    assert(false);
                }
                (DescribePost::Done, Action::NextPart)
            },
        }
    }
}

impl PostQueryResponse {
    /// Starts building the view of `post` for `user`.
    pub fn from_post_for_user(post: Post, user: &User) -> (r: (DescribePost, Action<PostQueryResponse>))
        ensures
            r.1 == Action::<PostQueryResponse>::Fetch(Key::Rating { user: user.username, post: post.id }),
            r.0 == (DescribePost::AwaitRating { post }),
    {
        let id = post.get_id();
        (DescribePost::AwaitRating { post }, Action::Fetch(Key::Rating { user: user.get_username(), post: id }))
    }

    pub fn get_post_ref(&self) -> (r: &Post)
        ensures
            *r == self.post,
    {
        &self.post
    }
}

/// A user as listed among the members or the banned users of a room.
pub struct JoinedUserResponse {
    pub username: String,
    pub public_name: String,
}

impl JoinedUserResponse {
    pub fn from_user(user: User) -> (r: Self)
        ensures
            r == (JoinedUserResponse { username: user.username, public_name: user.public_name }),
    {
        JoinedUserResponse { username: user.username, public_name: user.public_name }
    }
}

/// A user as listed among followers, followed users and search results.
pub struct UserQueryResponse {
    pub username: String,
    pub public_name: String,
    pub biography: String,
}

impl UserQueryResponse {
    pub fn from_user(user: User) -> (r: Self)
        ensures
            r == (UserQueryResponse {
                username: user.username,
                public_name: user.public_name,
                biography: user.biography,
            }),
    {
        UserQueryResponse { username: user.username, public_name: user.public_name, biography: user.biography }
    }
}

pub open spec fn user_query_of(u: User) -> UserQueryResponse {
    UserQueryResponse { username: u.username, public_name: u.public_name, biography: u.biography }
}

pub open spec fn joined_user_of(u: User) -> JoinedUserResponse {
    JoinedUserResponse { username: u.username, public_name: u.public_name }
}

/// Lists users as followers, followed users and search results show them.
pub fn user_queries(users: Vec<User>) -> (r: Vec<UserQueryResponse>)
    ensures
        r@ == users@.map_values(|u: User| user_query_of(u)),
{
    let mut users = users;
    let ghost all = users@;
    let mut out: Vec<UserQueryResponse> = Vec::new();
    while users.len() > 0
        invariant
            out@.len() + users@.len() == all.len(),
            users@ == all.skip(out@.len() as int),
            out@ == all.take(out@.len() as int).map_values(|u: User| user_query_of(u)),
        decreases users@.len(),
    {
        let u = users.remove(0);
        proof {
            assert(all.take(out@.len() + 1int) =~= all.take(out@.len() as int).push(u));
        }
        out.push(UserQueryResponse::from_user(u));
        proof {
            assert(users@ =~= all.skip(out@.len() as int));
        }
    }
    proof {
        assert(all.take(all.len() as int) =~= all);
    }
    out
}

/// Lists users as the members or the banned users of a room show them.
pub fn joined_users(users: Vec<User>) -> (r: Vec<JoinedUserResponse>)
    ensures
        r@ == users@.map_values(|u: User| joined_user_of(u)),
{
    let mut users = users;
    let ghost all = users@;
    let mut out: Vec<JoinedUserResponse> = Vec::new();
    while users.len() > 0
        invariant
            out@.len() + users@.len() == all.len(),
            users@ == all.skip(out@.len() as int),
            out@ == all.take(out@.len() as int).map_values(|u: User| joined_user_of(u)),
        decreases users@.len(),
    {
        let u = users.remove(0);
        proof {
            assert(all.take(out@.len() + 1int) =~= all.take(out@.len() as int).push(u));
        }
        out.push(JoinedUserResponse::from_user(u));
        proof {
            assert(users@ =~= all.skip(out@.len() as int));
        }
    }
    proof {
        assert(all.take(all.len() as int) =~= all);
    }
    out
}

/// The user that a lookup found.
pub open spec fn found_value(l: Lookup<User>) -> User {
    match l {
        Lookup::Found(u) => u,
        _ => arbitrary(),
    }
}

/// Every lookup found its user.
pub open spec fn all_found(ls: Seq<Lookup<User>>) -> bool {
    forall|i: int| 0 <= i < ls.len() ==> ls[i] is Found
}

/// The users that lookups found, as `user_queries` lists them; a user that
/// was not found makes the list `UserDoesNotExist`.
pub fn user_queries_from_lookups(lookups: Vec<Lookup<User>>) -> (r: Result<Vec<UserQueryResponse>, ApiError>)
    ensures
        !all_found(lookups@) ==> r == Err::<Vec<UserQueryResponse>, ApiError>(ApiError::UserDoesNotExist),
        all_found(lookups@) ==> (r matches Ok(v) && v@ == lookups@.map_values(|l: Lookup<User>| user_query_of(found_value(l)))),
{
    let mut ls = lookups;
    let ghost all = ls@;
    let mut out: Vec<UserQueryResponse> = Vec::new();
    while ls.len() > 0
        invariant
            all == lookups@,
            out@.len() + ls@.len() == all.len(),
            ls@ == all.skip(out@.len() as int),
            all_found(all.take(out@.len() as int)),
            out@ == all.take(out@.len() as int).map_values(|l: Lookup<User>| user_query_of(found_value(l))),
        decreases ls@.len(),
    {
        let k = out.len();
        let ghost before = ls@;
        let l = ls.remove(0);
        assert(l == all[k as int]) by {
            assert(before[0] == all.skip(k as int)[0]);
        }
        match l {
            Lookup::Found(u) => {
                proof {
                    assert(all.take(k + 1) =~= all.take(k as int).push(Lookup::Found(u)));
                }
                out.push(UserQueryResponse::from_user(u));
                proof {
                    assert(ls@ =~= all.skip(out@.len() as int));
                }
            },
            _ => {
                proof {
                    assert(!(all[k as int] is Found));
                    assert(!all_found(all));
                }
                return Err(ApiError::UserDoesNotExist);
            },
        }
    }
    proof {
        assert(all.take(all.len() as int) =~= all);
    }
    Ok(out)
}

/// A room as found by a search, with whether the searching user belongs to it.
pub struct RoomQueryResponse {
    pub room: Room,
    pub joined: bool,
}

impl RoomQueryResponse {
    /// Shows `room` to a user, given the lookup of that user's membership
    /// in it; only a membership that was found counts as joined.
    pub fn from_room_for_user(room: Room, membership: Lookup<Membership>) -> (r: Self)
        ensures
            r == (RoomQueryResponse { room, joined: membership is Found }),
    {
        let joined = match membership {
            Lookup::Found(_) => true,
            _ => false,
        };
        RoomQueryResponse { room, joined }
    }
}

pub enum SearchResultResponse {
    Users(Vec<UserQueryResponse>),
    Posts(Vec<PostQueryResponse>),
    Rooms(Vec<RoomQueryResponse>),
}

pub struct IsFollowingResponse {
    pub is_following: bool,
}

/// A user's profile as another user sees it.
pub struct GetUserDataResponse {
    pub public_name: String,
    pub biography: String,
    pub is_followed: bool,
    pub followers: i32,
    pub followed: i32,
}

/// `who_am_i` answers with the signed-in user's own name, public name and
/// biography, and refuses a request without a session.
pub proof fn law_who_am_i_answers_the_user(u: User)
    ensures
        (WhoAmI::AwaitUser).next(Event::Authenticated(Some(u))).1 == reply(
            Reply::WhoAmI(WhoAmIResponse { username: u.username, public_name: u.public_name, biography: u.biography }),
        ),
        (WhoAmI::AwaitUser).next(Event::Authenticated(None)).1 == fail(ApiError::InvalidSession),
{
}

/// A post is shown to a user with that user's own rating of it and the post
/// it reposts: the rating read is the user's of that post, a found upvote or
/// downvote is shown as such and anything else as no rating, and the reposted
/// post is read by the post's `child`.
pub proof fn law_post_is_shown_with_the_users_rating(post: Post, user: User, l: Lookup<Rating>, child: Lookup<Post>)
    ensures
        ({
            let shown = match l {
                Lookup::Found(r) => if r.is_upvote {
                    RatingInteraction::Upvote
                } else {
                    RatingInteraction::Downvote
                },
                _ => RatingInteraction::Unrated,
            };
            let (s, a) = (DescribePost::AwaitRating { post }).next(Event::RatingRow(l));
            &&& post.child is None ==> a == Action::Finish(
                PostQueryResponse { post, interaction: PostInteraction { rating: shown }, child: None },
            )
            &&& post.child matches Some(c) ==> a == Action::<PostQueryResponse>::Fetch(Key::Post(c)) && s.next(
                Event::PostRow(child),
            ).1 == Action::Finish(
                PostQueryResponse {
                    post,
                    interaction: PostInteraction { rating: shown },
                    child: match child {
                        Lookup::Found(p) => Some(p),
                        _ => None,
                    },
                },
            )
        }),
{
}

/// An upvote adds one to a post's score, a downvote takes one away, and no
/// rating adds nothing: changing a rating from `a` to `b` moves the score by
/// the difference.
pub proof fn law_rating_values()
    ensures
        rating_value(RatingInteraction::Upvote) == 1,
        rating_value(RatingInteraction::Downvote) == -1,
        rating_value(RatingInteraction::Unrated) == 0,
        forall|a: RatingInteraction, b: RatingInteraction|
            -2 <= #[trigger] (rating_value(b) - rating_value(a)) <= 2,
{
}

} // verus!
