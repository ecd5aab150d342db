//! Bookmarks: marking posts to read later.
use vstd::prelude::*;

use crate::api::feed::{post_feed, FeedSource, PostFeed};
use crate::error::ApiError;
use crate::flow::{
    authenticated, authenticated_user, fail, found_post, post_found, reply, Action, Change, Event, Key,
    Lookup, Outcome, Reply,
};
use crate::models::{Bookmark, Post, User};

verus! {

/// `post` with one more bookmark.
pub open spec fn with_bookmark_added(p: Post) -> Post {
    Post { bookmarks: (p.bookmarks + 1) as i32, ..p }
}

/// `post` with one bookmark less.
pub open spec fn with_bookmark_removed(p: Post) -> Post {
    Post { bookmarks: (p.bookmarks - 1) as i32, ..p }
}


/// Bookmarks a post for the requesting user, once: bookmarking a post twice
/// changes nothing. The bookmark and the post's raised count are written in
/// one transaction. Answers with the post as the user sees it.
pub enum BookmarkPost {
    AwaitUser { post_id: String },
    AwaitPost { user: User, post_id: String },
    AwaitRecord { user: User, post: Post },
    AwaitBegin { user: User, post: Post },
    AwaitInsert { user: User, post: Post },
    AwaitSave { user: User, post: Post },
    AwaitCommit { user: User, post: Post },
    AwaitRollback,
    AwaitDescribed,
    Done,
}

impl BookmarkPost {
    pub open spec fn admits(&self, e: &Event) -> bool {
        match self {
            BookmarkPost::AwaitInsert { post, .. } => e matches Event::Written(true) ==> post.bookmarks < i32::MAX,
            _ => true,
        }
    }

    pub fn accepts(&self, e: &Event) -> (r: bool)
        ensures
            r == self.admits(e),
    {
        match self {
            BookmarkPost::AwaitInsert { post, .. } => match e {
                Event::Written(true) => post.bookmarks < i32::MAX,
                _ => true,
            },
            _ => true,
        }
    }

    pub open spec fn next(self, e: Event) -> (BookmarkPost, Action<Outcome>) {
        match self {
            BookmarkPost::AwaitUser { post_id } => match authenticated(e) {
                Err(x) => (BookmarkPost::Done, fail(x)),
                Ok(user) => (BookmarkPost::AwaitPost { user, post_id }, Action::Fetch(Key::Post(post_id))),
            },
            BookmarkPost::AwaitPost { user, post_id } => match found_post(e, ApiError::PostDoesNotExist) {
                Err(x) => (BookmarkPost::Done, fail(x)),
                Ok(post) => (
                    BookmarkPost::AwaitRecord { user, post },
                    Action::Fetch(Key::Bookmark { user: user.username, post: post_id }),
                ),
            },
            BookmarkPost::AwaitRecord { user, post } => match e {
                Event::BookmarkRow(Lookup::Found(_)) => (BookmarkPost::AwaitDescribed, Action::DescribeOne { user, post }),
                Event::BookmarkRow(Lookup::Missing) => (BookmarkPost::AwaitBegin { user, post }, Action::Begin),
                _ => (BookmarkPost::Done, fail(ApiError::InternalServer)),
            },
            BookmarkPost::AwaitBegin { user, post } => match e {
                Event::Written(true) => (
                    BookmarkPost::AwaitInsert { user, post },
                    Action::Write(Change::InsertBookmark(Bookmark { user: user.username, post: post.id })),
                ),
                _ => (BookmarkPost::Done, fail(ApiError::InternalServer)),
            },
            BookmarkPost::AwaitInsert { user, post } => match e {
                Event::Written(true) => (
                    BookmarkPost::AwaitSave { user, post: with_bookmark_added(post) },
                    Action::Write(Change::SavePost(with_bookmark_added(post))),
                ),
                _ => (BookmarkPost::AwaitRollback, Action::Rollback),
            },
            BookmarkPost::AwaitSave { user, post } => match e {
                Event::Written(true) => (BookmarkPost::AwaitCommit { user, post }, Action::Commit),
                _ => (BookmarkPost::AwaitRollback, Action::Rollback),
            },
            BookmarkPost::AwaitCommit { user, post } => match e {
                Event::Written(true) => (BookmarkPost::AwaitDescribed, Action::DescribeOne { user, post }),
                _ => (BookmarkPost::Done, fail(ApiError::InternalServer)),
            },
            BookmarkPost::AwaitRollback => (BookmarkPost::Done, fail(ApiError::InternalServer)),
            BookmarkPost::AwaitDescribed => match e {
                Event::DescribedOne(d) => (BookmarkPost::Done, reply(Reply::Post(d))),
                _ => (BookmarkPost::Done, fail(ApiError::InternalServer)),
            },
            BookmarkPost::Done => (BookmarkPost::Done, fail(ApiError::InternalServer)),
        }
    }

    pub fn step(self, e: Event) -> (r: (BookmarkPost, Action<Outcome>))
        requires
            self.admits(&e),
        ensures
            r == self.next(e),
    {
        match self {
            BookmarkPost::AwaitUser { post_id } => match authenticated_user(e) {
                Err(x) => (BookmarkPost::Done, Action::Finish(Err(x))),
                Ok(user) => {
                    let id = post_id.clone();
                    (BookmarkPost::AwaitPost { user, post_id }, Action::Fetch(Key::Post(id)))
                },
            },
            BookmarkPost::AwaitPost { user, post_id } => match post_found(e, ApiError::PostDoesNotExist) {
                Err(x) => (BookmarkPost::Done, Action::Finish(Err(x))),
                Ok(post) => {
                    let username = user.get_username();
                    (BookmarkPost::AwaitRecord { user, post }, Action::Fetch(Key::Bookmark { user: username, post: post_id }))
                },
            },
            BookmarkPost::AwaitRecord { user, post } => match e {
                Event::BookmarkRow(Lookup::Found(_)) => (BookmarkPost::AwaitDescribed, Action::DescribeOne { user, post }),
                Event::BookmarkRow(Lookup::Missing) => (BookmarkPost::AwaitBegin { user, post }, Action::Begin),
                _ => (BookmarkPost::Done, Action::Finish(Err(ApiError::InternalServer))),
            },
            BookmarkPost::AwaitBegin { user, post } => match e {
                Event::Written(true) => {
                    let b = Bookmark::new(&user, &post);
                    (BookmarkPost::AwaitInsert { user, post }, Action::Write(Change::InsertBookmark(b)))
                },
                _ => (BookmarkPost::Done, Action::Finish(Err(ApiError::InternalServer))),
            },
            BookmarkPost::AwaitInsert { user, mut post } => match e {
                Event::Written(true) => {
                    let n = post.get_bookmarks() + 1;
                    post.set_bookmarks_unchecked(n);
                    let row = post.duplicate();
                    (BookmarkPost::AwaitSave { user, post }, Action::Write(Change::SavePost(row)))
                },
                _ => (BookmarkPost::AwaitRollback, Action::Rollback),
            },
            BookmarkPost::AwaitSave { user, post } => match e {
                Event::Written(true) => (BookmarkPost::AwaitCommit { user, post }, Action::Commit),
                _ => (BookmarkPost::AwaitRollback, Action::Rollback),
            },
            BookmarkPost::AwaitCommit { user, post } => match e {
                Event::Written(true) => (BookmarkPost::AwaitDescribed, Action::DescribeOne { user, post }),
                _ => (BookmarkPost::Done, Action::Finish(Err(ApiError::InternalServer))),
            },
            BookmarkPost::AwaitRollback => (BookmarkPost::Done, Action::Finish(Err(ApiError::InternalServer))),
            BookmarkPost::AwaitDescribed => match e {
                Event::DescribedOne(d) => (BookmarkPost::Done, Action::Finish(Ok(Reply::Post(d)))),
                _ => (BookmarkPost::Done, Action::Finish(Err(ApiError::InternalServer))),
            },
            BookmarkPost::Done => (BookmarkPost::Done, Action::Finish(Err(ApiError::InternalServer))),
        }
    }
}

pub fn bookmark_post(post_id: String) -> (r: (BookmarkPost, Action<Outcome>))
    ensures
        r == (BookmarkPost::AwaitUser { post_id }, Action::<Outcome>::Authenticate),
{
    (BookmarkPost::AwaitUser { post_id }, Action::Authenticate)
}

/// Removes the requesting user's bookmark of a post; a post that the user
/// did not bookmark is an invalid query. The bookmark's removal and the
/// post's lowered count are written in one transaction. Answers with the
/// post as the user sees it.
pub enum UnbookmarkPost {
    AwaitUser { post_id: String },
    AwaitPost { user: User, post_id: String },
    AwaitRecord { user: User, post_id: String, post: Post },
    AwaitBegin { user: User, post_id: String, post: Post },
    AwaitDelete { user: User, post: Post },
    AwaitSave { user: User, post: Post },
    AwaitCommit { user: User, post: Post },
    AwaitRollback,
    AwaitDescribed,
    Done,
}

impl UnbookmarkPost {
    pub open spec fn admits(&self, e: &Event) -> bool {
        match self {
            UnbookmarkPost::AwaitDelete { post, .. } => e matches Event::Written(true) ==> post.bookmarks > i32::MIN,
            _ => true,
        }
    }

    pub fn accepts(&self, e: &Event) -> (r: bool)
        ensures
            r == self.admits(e),
    {
        match self {
            UnbookmarkPost::AwaitDelete { post, .. } => match e {
                Event::Written(true) => post.bookmarks > i32::MIN,
                _ => true,
            },
            _ => true,
        }
    }

    pub open spec fn next(self, e: Event) -> (UnbookmarkPost, Action<Outcome>) {
        match self {
            UnbookmarkPost::AwaitUser { post_id } => match authenticated(e) {
                Err(x) => (UnbookmarkPost::Done, fail(x)),
                Ok(user) => (UnbookmarkPost::AwaitPost { user, post_id }, Action::Fetch(Key::Post(post_id))),
            },
            UnbookmarkPost::AwaitPost { user, post_id } => match found_post(e, ApiError::PostDoesNotExist) {
                Err(x) => (UnbookmarkPost::Done, fail(x)),
                Ok(post) => (
                    UnbookmarkPost::AwaitRecord { user, post_id, post },
                    Action::Fetch(Key::Bookmark { user: user.username, post: post_id }),
                ),
            },
            UnbookmarkPost::AwaitRecord { user, post_id, post } => match e {
                Event::BookmarkRow(Lookup::Found(_)) => (UnbookmarkPost::AwaitBegin { user, post_id, post }, Action::Begin),
                Event::BookmarkRow(Lookup::Missing) => (UnbookmarkPost::Done, fail(ApiError::InvalidQuery)),
                _ => (UnbookmarkPost::Done, fail(ApiError::InternalServer)),
            },
            UnbookmarkPost::AwaitBegin { user, post_id, post } => match e {
                Event::Written(true) => (
                    UnbookmarkPost::AwaitDelete { user, post },
                    Action::Write(Change::DeleteBookmark { user: user.username, post: post_id }),
                ),
                _ => (UnbookmarkPost::Done, fail(ApiError::InternalServer)),
            },
            UnbookmarkPost::AwaitDelete { user, post } => match e {
                Event::Written(true) => (
                    UnbookmarkPost::AwaitSave { user, post: with_bookmark_removed(post) },
                    Action::Write(Change::SavePost(with_bookmark_removed(post))),
                ),
                _ => (UnbookmarkPost::AwaitRollback, Action::Rollback),
            },
            UnbookmarkPost::AwaitSave { user, post } => match e {
                Event::Written(true) => (UnbookmarkPost::AwaitCommit { user, post }, Action::Commit),
                _ => (UnbookmarkPost::AwaitRollback, Action::Rollback),
            },
            UnbookmarkPost::AwaitCommit { user, post } => match e {
                Event::Written(true) => (UnbookmarkPost::AwaitDescribed, Action::DescribeOne { user, post }),
                _ => (UnbookmarkPost::Done, fail(ApiError::InternalServer)),
            },
            UnbookmarkPost::AwaitRollback => (UnbookmarkPost::Done, fail(ApiError::InternalServer)),
            UnbookmarkPost::AwaitDescribed => match e {
                Event::DescribedOne(d) => (UnbookmarkPost::Done, reply(Reply::Post(d))),
                _ => (UnbookmarkPost::Done, fail(ApiError::InternalServer)),
            },
            UnbookmarkPost::Done => (UnbookmarkPost::Done, fail(ApiError::InternalServer)),
        }
    }

    pub fn step(self, e: Event) -> (r: (UnbookmarkPost, Action<Outcome>))
        requires
            self.admits(&e),
        ensures
            r == self.next(e),
    {
        match self {
            UnbookmarkPost::AwaitUser { post_id } => match authenticated_user(e) {
                Err(x) => (UnbookmarkPost::Done, Action::Finish(Err(x))),
                Ok(user) => {
                    let id = post_id.clone();
                    (UnbookmarkPost::AwaitPost { user, post_id }, Action::Fetch(Key::Post(id)))
                },
            },
            UnbookmarkPost::AwaitPost { user, post_id } => match post_found(e, ApiError::PostDoesNotExist) {
                Err(x) => (UnbookmarkPost::Done, Action::Finish(Err(x))),
                Ok(post) => {
                    let username = user.get_username();
                    let id = post_id.clone();
                    (
                        UnbookmarkPost::AwaitRecord { user, post_id, post },
                        Action::Fetch(Key::Bookmark { user: username, post: id }),
                    )
                },
            },
            UnbookmarkPost::AwaitRecord { user, post_id, post } => match e {
                Event::BookmarkRow(Lookup::Found(_)) => (UnbookmarkPost::AwaitBegin { user, post_id, post }, Action::Begin),
                Event::BookmarkRow(Lookup::Missing) => (UnbookmarkPost::Done, Action::Finish(Err(ApiError::InvalidQuery))),
                _ => (UnbookmarkPost::Done, Action::Finish(Err(ApiError::InternalServer))),
            },
            UnbookmarkPost::AwaitBegin { user, post_id, post } => match e {
                Event::Written(true) => {
                    let username = user.get_username();
                    (
                        UnbookmarkPost::AwaitDelete { user, post },
                        Action::Write(Change::DeleteBookmark { user: username, post: post_id }),
                    )
                },
                _ => (UnbookmarkPost::Done, Action::Finish(Err(ApiError::InternalServer))),
            },
            UnbookmarkPost::AwaitDelete { user, mut post } => match e {
                Event::Written(true) => {
                    let n = post.get_bookmarks() - 1;
                    post.set_bookmarks_unchecked(n);
                    let row = post.duplicate();
                    (UnbookmarkPost::AwaitSave { user, post }, Action::Write(Change::SavePost(row)))
                },
                _ => (UnbookmarkPost::AwaitRollback, Action::Rollback),
            },
            UnbookmarkPost::AwaitSave { user, post } => match e {
                Event::Written(true) => (UnbookmarkPost::AwaitCommit { user, post }, Action::Commit),
                _ => (UnbookmarkPost::AwaitRollback, Action::Rollback),
            },
            UnbookmarkPost::AwaitCommit { user, post } => match e {
                Event::Written(true) => (UnbookmarkPost::AwaitDescribed, Action::DescribeOne { user, post }),
                _ => (UnbookmarkPost::Done, Action::Finish(Err(ApiError::InternalServer))),
            },
            UnbookmarkPost::AwaitRollback => (UnbookmarkPost::Done, Action::Finish(Err(ApiError::InternalServer))),
            UnbookmarkPost::AwaitDescribed => match e {
                Event::DescribedOne(d) => (UnbookmarkPost::Done, Action::Finish(Ok(Reply::Post(d)))),
                _ => (UnbookmarkPost::Done, Action::Finish(Err(ApiError::InternalServer))),
            },
            UnbookmarkPost::Done => (UnbookmarkPost::Done, Action::Finish(Err(ApiError::InternalServer))),
        }
    }
}

pub fn unbookmark_post(post_id: String) -> (r: (UnbookmarkPost, Action<Outcome>))
    ensures
        r == (UnbookmarkPost::AwaitUser { post_id }, Action::<Outcome>::Authenticate),
{
    (UnbookmarkPost::AwaitUser { post_id }, Action::Authenticate)
}

/// Lists one page of the posts that the requesting user bookmarked.
pub fn fetch_bookmarked_posts(page: Option<String>) -> (r: (PostFeed, Action<Outcome>))
    ensures
        r == (PostFeed::AwaitUser { source: FeedSource::Bookmarked, page }, Action::<Outcome>::Authenticate),
{
    post_feed(FeedSource::Bookmarked, page)
}

/// Unbookmarking undoes bookmarking: the row that an unbookmark deletes is
/// the one that the bookmark inserted, and the post that it saves is the post
/// as it was before the bookmark.
pub proof fn law_unbookmark_undoes_bookmark(user: User, p: Post)
    requires
        p.bookmarks < i32::MAX,
    ensures
        (BookmarkPost::AwaitBegin { user, post: p }).next(Event::Written(true)).1 == Action::<Outcome>::Write(
            Change::InsertBookmark(Bookmark { user: user.username, post: p.id }),
        ),
        (UnbookmarkPost::AwaitBegin { user, post_id: p.id, post: with_bookmark_added(p) }).next(
            Event::Written(true),
        ).1 == Action::<Outcome>::Write(Change::DeleteBookmark { user: user.username, post: p.id }),
        (BookmarkPost::AwaitInsert { user, post: p }).next(Event::Written(true)).1 == Action::<Outcome>::Write(
            Change::SavePost(with_bookmark_added(p)),
        ),
        (UnbookmarkPost::AwaitDelete { user, post: with_bookmark_added(p) }).next(Event::Written(true)).1
            == Action::<Outcome>::Write(Change::SavePost(p)),
{
}

/// Bookmarking reads the requesting user's bookmark of the requested post; a
/// post already bookmarked is shown again without any write, and one not yet
/// bookmarked is bookmarked in a transaction.
pub proof fn law_bookmark_is_not_repeated(post_id: String, user: User, p: Post, b: Bookmark)
    ensures
        ({
            let (s1, a1) = (BookmarkPost::AwaitUser { post_id }).next(Event::Authenticated(Some(user)));
            let (s2, a2) = s1.next(Event::PostRow(Lookup::Found(p)));
            &&& a1 == Action::<Outcome>::Fetch(Key::Post(post_id))
            &&& a2 == Action::<Outcome>::Fetch(Key::Bookmark { user: user.username, post: post_id })
            &&& s2.next(Event::BookmarkRow(Lookup::Found(b))).1 == (Action::<Outcome>::DescribeOne { user, post: p })
            &&& s2.next(Event::BookmarkRow(Lookup::Missing)).1 == Action::<Outcome>::Begin
        }),
{
}

/// Bookmarking raises the post's bookmark count by exactly one and
/// unbookmarking lowers it by exactly one, leaving every other field as it
/// was.
pub proof fn law_bookmark_count_moves_by_one(user: User, p: Post)
    requires
        i32::MIN < p.bookmarks < i32::MAX,
    ensures
        (BookmarkPost::AwaitInsert { user, post: p }).next(Event::Written(true)).1 == Action::<Outcome>::Write(
            Change::SavePost(Post { bookmarks: (p.bookmarks + 1) as i32, ..p }),
        ),
        (UnbookmarkPost::AwaitDelete { user, post: p }).next(Event::Written(true)).1 == Action::<Outcome>::Write(
            Change::SavePost(Post { bookmarks: (p.bookmarks - 1) as i32, ..p }),
        ),
{
}

} // verus!
