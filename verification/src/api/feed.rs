//! Pages of posts shown to the requesting user.
use vstd::prelude::*;

use crate::error::ApiError;
use crate::flow::{
    authenticated, authenticated_user, fail, page_fits, page_offset, read_page, reply, Action, Event,
    Listing, Outcome, Reply,
};
use crate::api::PostQueryResponse;
use crate::models::{Post, User};

verus! {

/// Which posts a feed lists.
pub enum FeedSource {
    /// The posts that the requesting user bookmarked.
    Bookmarked,
    /// The posts outside every room that answer no other post.
    PublicSpace,
    /// The comments on a post.
    Comments(String),
}

/// The listing behind a feed, for `user`, from row `offset` on.
pub open spec fn feed_listing(source: FeedSource, user: User, offset: i64) -> Listing {
    match source {
        FeedSource::Bookmarked => Listing::Bookmarked { user: user.username, offset },
        FeedSource::PublicSpace => Listing::PublicSpace { offset },
        FeedSource::Comments(parent) => Listing::Comments { parent, offset },
    }
}

fn listing_of(source: FeedSource, user: &User, offset: i64) -> (r: Listing)
    ensures
        r == feed_listing(source, *user, offset),
{
    match source {
        FeedSource::Bookmarked => Listing::Bookmarked { user: user.get_username(), offset },
        FeedSource::PublicSpace => Listing::PublicSpace { offset },
        FeedSource::Comments(parent) => Listing::Comments { parent, offset },
    }
}

/// One page of a feed: authenticates, reads the page number, lists the posts
/// and shows each to the user.
pub enum PostFeed {
    AwaitUser { source: FeedSource, page: Option<String> },
    AwaitPosts { user: User },
    AwaitDescribed,
    Done,
}

impl PostFeed {
    /// The page's offset fits in an `i64`.
    pub open spec fn admits(&self, e: &Event) -> bool {
        match self {
            PostFeed::AwaitUser { page, .. } => e matches Event::Authenticated(Some(_)) ==> page_fits(*page),
            _ => true,
        }
    }

    pub fn accepts(&self, e: &Event) -> (r: bool)
        ensures
            r == self.admits(e),
    {
        match self {
            PostFeed::AwaitUser { page, .. } => match e {
                Event::Authenticated(Some(_)) => crate::flow::page_in_range(page),
                _ => true,
            },
            _ => true,
        }
    }

    pub open spec fn next(self, e: Event) -> (PostFeed, Action<Outcome>) {
        match self {
            PostFeed::AwaitUser { source, page } => match authenticated(e) {
                Err(x) => (PostFeed::Done, fail(x)),
                Ok(user) => match page_offset(page) {
                    Err(x) => (PostFeed::Done, fail(x)),
                    Ok(offset) => (PostFeed::AwaitPosts { user }, Action::List(feed_listing(source, user, offset))),
                },
            },
            PostFeed::AwaitPosts { user } => match e {
                Event::Posts(Some(posts)) => (PostFeed::AwaitDescribed, Action::Describe { user, posts }),
                _ => (PostFeed::Done, fail(ApiError::InternalServer)),
            },
            PostFeed::AwaitDescribed => match e {
                Event::Described(v) => (PostFeed::Done, reply(Reply::Posts(v))),
                _ => (PostFeed::Done, fail(ApiError::InternalServer)),
            },
            PostFeed::Done => (PostFeed::Done, fail(ApiError::InternalServer)),
        }
    }

    pub fn step(self, e: Event) -> (r: (PostFeed, Action<Outcome>))
        requires
            self.admits(&e),
        ensures
            r == self.next(e),
    {
        match self {
            PostFeed::AwaitUser { source, page } => match authenticated_user(e) {
                Err(x) => (PostFeed::Done, Action::Finish(Err(x))),
                Ok(user) => match read_page(&page) {
                    Err(x) => (PostFeed::Done, Action::Finish(Err(x))),
                    Ok(offset) => {
                        let listing = listing_of(source, &user, offset);
                        (PostFeed::AwaitPosts { user }, Action::List(listing))
                    },
                },
            },
            PostFeed::AwaitPosts { user } => match e {
                Event::Posts(Some(posts)) => (PostFeed::AwaitDescribed, Action::Describe { user, posts }),
                _ => (PostFeed::Done, Action::Finish(Err(ApiError::InternalServer))),
            },
            PostFeed::AwaitDescribed => match e {
                Event::Described(v) => (PostFeed::Done, Action::Finish(Ok(Reply::Posts(v)))),
                _ => (PostFeed::Done, Action::Finish(Err(ApiError::InternalServer))),
            },
            PostFeed::Done => (PostFeed::Done, Action::Finish(Err(ApiError::InternalServer))),
        }
    }
}

/// Starts a feed of `source` for the page that `page` names.
pub fn post_feed(source: FeedSource, page: Option<String>) -> (r: (PostFeed, Action<Outcome>))
    ensures
        r == (PostFeed::AwaitUser { source, page }, Action::<Outcome>::Authenticate),
{
    (PostFeed::AwaitUser { source, page }, Action::Authenticate)
}

/// A feed lists, from the page's first row, the requesting user's bookmarked
/// posts, the posts of the public space, or the comments on the given post,
/// and answers with those posts as the user sees them.
pub proof fn law_feed_lists_its_source(source: FeedSource, page: Option<String>, user: User, posts: Vec<Post>, shown: Vec<PostQueryResponse>)
    requires
        page_fits(page),
        page_offset(page) is Ok,
    ensures
        ({
            let offset = page_offset(page)->Ok_0;
            let (s1, a1) = (PostFeed::AwaitUser { source, page }).next(Event::Authenticated(Some(user)));
            let (s2, a2) = s1.next(Event::Posts(Some(posts)));
            &&& source is Bookmarked ==> a1 == Action::<Outcome>::List(Listing::Bookmarked { user: user.username, offset })
            &&& source is PublicSpace ==> a1 == Action::<Outcome>::List(Listing::PublicSpace { offset })
            &&& source matches FeedSource::Comments(parent) ==> a1 == Action::<Outcome>::List(
                Listing::Comments { parent, offset },
            )
            &&& a2 == (Action::<Outcome>::Describe { user, posts })
            &&& s2.next(Event::Described(shown)).1 == reply(Reply::Posts(shown))
        }),
{
}

} // verus!
