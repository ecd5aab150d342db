//! Threads: a post with the posts it answers, and the comments on a post.
use vstd::prelude::*;

use crate::api::feed::{post_feed, FeedSource, PostFeed};
use crate::api::PostQueryResponse;
use crate::error::ApiError;
use crate::flow::{
    authenticated, authenticated_user, fail, found_post, post_found, Action, Event, Key, Lookup, Outcome,
    Reply,
};
use crate::models::{copy_opt, Post, User};

verus! {

/// How many posts above the selected one a thread shows at most.
pub const MAX_PARENT_POST_COUNT: usize = 10;

/// Shows a post with the chain of posts it answers, oldest first, at most
/// `MAX_PARENT_POST_COUNT` of them; the chain stops at a parent that cannot be
/// read.
pub enum GetThread {
    AwaitUser { post_id: String },
    AwaitPost { user: User },
    /// `thread` holds the posts shown so far, oldest first; `depth` is the
    /// number of parents among them.
    AwaitDescribed { user: User, thread: Vec<PostQueryResponse>, depth: usize },
    AwaitParent { user: User, thread: Vec<PostQueryResponse>, depth: usize },
    Done,
}

impl GetThread {
    /// The machine is used as `get_thread` leaves it: at most
    /// `MAX_PARENT_POST_COUNT` parents.
    pub open spec fn admits(&self, e: &Event) -> bool {
        match self {
            GetThread::AwaitDescribed { depth, .. } => *depth <= MAX_PARENT_POST_COUNT,
            GetThread::AwaitParent { depth, .. } => *depth < MAX_PARENT_POST_COUNT,
            _ => true,
        }
    }

    pub fn accepts(&self, e: &Event) -> (r: bool)
        ensures
            r == self.admits(e),
    {
        match self {
            GetThread::AwaitDescribed { depth, .. } => *depth <= MAX_PARENT_POST_COUNT,
            GetThread::AwaitParent { depth, .. } => *depth < MAX_PARENT_POST_COUNT,
            _ => true,
        }
    }

    pub open spec fn steps_to(self, e: Event, r: (GetThread, Action<Outcome>)) -> bool {
        match self {
            GetThread::AwaitUser { post_id } => match authenticated(e) {
                Err(x) => r == (GetThread::Done, crate::flow::fail(x)),
                Ok(user) => r == (GetThread::AwaitPost { user }, Action::<Outcome>::Fetch(Key::Post(post_id))),
            },
            GetThread::AwaitPost { user } => match found_post(e, ApiError::PostDoesNotExist) {
                Err(x) => r == (GetThread::Done, fail(x)),
                Ok(p) => r.1 == Action::<Outcome>::DescribeOne { user, post: p } && (r.0 matches GetThread::AwaitDescribed {
                    user: u,
                    thread,
                    depth,
                } && u == user && thread@.len() == 0 && depth == 0),
            },
            GetThread::AwaitDescribed { user, thread, depth } => match e {
                Event::DescribedOne(d) => {
                    let grown = seq![d] + thread@;
                    match d.post.parent {
                        Some(pid) => if depth < MAX_PARENT_POST_COUNT {
                            r.1 == Action::<Outcome>::Fetch(Key::Post(pid)) && (r.0 matches GetThread::AwaitParent {
                                user: u,
                                thread: t,
                                depth: k,
                            } && u == user && t@ == grown && k == depth)
                        } else {
                            r.0 == GetThread::Done && (r.1 matches Action::Finish(Ok(Reply::Posts(t))) && t@ == grown)
                        },
                        None => r.0 == GetThread::Done && (r.1 matches Action::Finish(Ok(Reply::Posts(t))) && t@ == grown),
                    }
                },
                _ => r == (GetThread::Done, fail(ApiError::InternalServer)),
            },
            GetThread::AwaitParent { user, thread, depth } => match e {
                Event::PostRow(Lookup::Found(p)) => r.1 == Action::<Outcome>::DescribeOne { user, post: p } && (r.0 matches GetThread::AwaitDescribed {
                    user: u,
                    thread: t,
                    depth: k,
                } && u == user && t == thread && k == depth + 1),
                _ => r.0 == GetThread::Done && (r.1 matches Action::Finish(Ok(Reply::Posts(t))) && t@ == thread@),
            },
            GetThread::Done => r == (GetThread::Done, fail(ApiError::InternalServer)),
        }
    }

    pub fn step(self, e: Event) -> (r: (GetThread, Action<Outcome>))
        requires
            self.admits(&e),
        ensures
            self.steps_to(e, r),
    {
        match self {
            GetThread::AwaitUser { post_id } => match authenticated_user(e) {
                Err(x) => (GetThread::Done, Action::Finish(Err(x))),
                Ok(user) => (GetThread::AwaitPost { user }, Action::Fetch(Key::Post(post_id))),
            },
            GetThread::AwaitPost { user } => match post_found(e, ApiError::PostDoesNotExist) {
                Err(x) => (GetThread::Done, Action::Finish(Err(x))),
                Ok(p) => {
                    let viewer = user.duplicate();
                    (GetThread::AwaitDescribed { user, thread: Vec::new(), depth: 0 }, Action::DescribeOne { user: viewer, post: p })
                },
            },
            GetThread::AwaitDescribed { user, thread, depth } => match e {
                Event::DescribedOne(d) => {
                    let parent = copy_opt(&d.post.parent);
                    let mut thread = thread;
                    let ghost old_thread = thread@;
                    thread.insert(0, d);
                    proof {
                        assert(thread@ =~= seq![d] + old_thread);
                    }
                    match parent {
                        Some(pid) => if depth < MAX_PARENT_POST_COUNT {
                            (GetThread::AwaitParent { user, thread, depth }, Action::Fetch(Key::Post(pid)))
                        } else {
                            (GetThread::Done, Action::Finish(Ok(Reply::Posts(thread))))
                        },
                        None => (GetThread::Done, Action::Finish(Ok(Reply::Posts(thread)))),
                    }
                },
                _ => (GetThread::Done, Action::Finish(Err(ApiError::InternalServer))),
            },
            GetThread::AwaitParent { user, thread, depth } => match e {
                Event::PostRow(Lookup::Found(p)) => {
                    let viewer = user.duplicate();
                    (GetThread::AwaitDescribed { user, thread, depth: depth + 1 }, Action::DescribeOne { user: viewer, post: p })
                },
                _ => (GetThread::Done, Action::Finish(Ok(Reply::Posts(thread)))),
            },
            GetThread::Done => (GetThread::Done, Action::Finish(Err(ApiError::InternalServer))),
        }
    }
}

pub fn get_thread(post_id: String) -> (r: (GetThread, Action<Outcome>))
    ensures
        r == (GetThread::AwaitUser { post_id }, Action::<Outcome>::Authenticate),
{
    (GetThread::AwaitUser { post_id }, Action::Authenticate)
}

/// A thread never grows past the selected post and `MAX_PARENT_POST_COUNT`
/// parents: once that many parents are shown, no further parent is read.
pub proof fn law_thread_is_bounded(user: User, thread: Vec<PostQueryResponse>, d: PostQueryResponse, r: (GetThread, Action<Outcome>))
    requires
        (GetThread::AwaitDescribed { user, thread, depth: MAX_PARENT_POST_COUNT }).steps_to(Event::DescribedOne(d), r),
    ensures
        r.0 == GetThread::Done,
        r.1 matches Action::Finish(Ok(Reply::Posts(t))) && t@.len() == thread@.len() + 1,
{
}

/// One page of the comments on a post, best rated first.
pub fn comment_query(parent_post_id: String, page: Option<String>) -> (r: (PostFeed, Action<Outcome>))
    ensures
        r == (PostFeed::AwaitUser { source: FeedSource::Comments(parent_post_id), page }, Action::<Outcome>::Authenticate),
{
    post_feed(FeedSource::Comments(parent_post_id), page)
}

/// A thread climbs from the requested post to its parents and lists them
/// oldest first: each shown post is placed before those shown after it, the
/// next parent read is the shown post's parent, and a post without a parent
/// ends the thread.
pub proof fn law_thread_lists_parents_first(
    user: User,
    thread: Vec<PostQueryResponse>,
    depth: usize,
    d: PostQueryResponse,
    r: (GetThread, Action<Outcome>),
)
    requires
        depth < MAX_PARENT_POST_COUNT,
        (GetThread::AwaitDescribed { user, thread, depth }).steps_to(Event::DescribedOne(d), r),
    ensures
        d.post.parent matches Some(pid) ==> r.1 == Action::<Outcome>::Fetch(Key::Post(pid)),
        d.post.parent is None ==> (r.1 matches Action::Finish(Ok(Reply::Posts(t))) && t@.len() == thread@.len() + 1
            && t@[0] == d && t@.skip(1) == thread@),
{
    if let Action::Finish(Ok(Reply::Posts(t))) = r.1 {
        assert(t@.skip(1) =~= thread@);
    }
}

/// A thread starts at the post with the requested id, which must exist, and
/// each parent that is read is shown next; a parent that cannot be read ends
/// the thread with the posts shown so far.
pub proof fn law_thread_reads_the_chain(
    post_id: String,
    user: User,
    p: Post,
    thread: Vec<PostQueryResponse>,
    depth: usize,
    r1: (GetThread, Action<Outcome>),
    r2: (GetThread, Action<Outcome>),
    r3: (GetThread, Action<Outcome>),
    r4: (GetThread, Action<Outcome>),
)
    requires
        (GetThread::AwaitUser { post_id }).steps_to(Event::Authenticated(Some(user)), r1),
        r1.0.steps_to(Event::PostRow(Lookup::Found(p)), r2),
        (GetThread::AwaitParent { user, thread, depth }).steps_to(Event::PostRow(Lookup::Found(p)), r3),
        (GetThread::AwaitParent { user, thread, depth }).steps_to(Event::PostRow(Lookup::Missing), r4),
    ensures
        r1.1 == Action::<Outcome>::Fetch(Key::Post(post_id)),
        r2.1 == (Action::<Outcome>::DescribeOne { user, post: p }),
        r3.1 == (Action::<Outcome>::DescribeOne { user, post: p }),
        r4.1 matches Action::Finish(Ok(Reply::Posts(t))) && t@ == thread@,
        r1.0.steps_to(Event::PostRow(Lookup::Missing), (GetThread::Done, fail(ApiError::PostDoesNotExist))),
{
}

} // verus!
