//! Creating, deleting and reading single posts.
use vstd::prelude::*;

use crate::bindings::is_hyphenated_v4;

use crate::error::ApiError;
use crate::flow::{
    authenticated, authenticated_user, fail, found_post, found_room, post_found, reply, room_found,
    write_ok, written, Action, Change, Event, Key, Lookup, Outcome, Reply, Task,
};
use crate::models::{copy_opt, new_post_row, Post, Room, User};
use crate::text::{blank, byte_len, is_blank};

verus! {

pub struct PostCreationData {
    pub body: String,
    pub appendage_id: Option<String>,
    pub room: Option<String>,
    pub parent: Option<String>,
    pub child: Option<String>,
}

/// The longest post body, in bytes.
pub const MAX_POST_LEN: usize = 300;

/// The id of an optional post.
pub open spec fn id_of_post(p: Option<Post>) -> Option<String> {
    match p {
        Some(p) => Some(p.id),
        None => None,
    }
}

/// The id of an optional room.
pub open spec fn id_of_room(r: Option<Room>) -> Option<String> {
    match r {
        Some(r) => Some(r.id),
        None => None,
    }
}

/// `post` with one more comment.
pub open spec fn with_comment_added(p: Post) -> Post {
    Post { comments: (p.comments + 1) as i32, ..p }
}

/// `post` with one more repost.
pub open spec fn with_repost_added(p: Post) -> Post {
    Post { reposts: (p.reposts + 1) as i32, ..p }
}

/// `post` with one comment less.
pub open spec fn with_comment_removed(p: Post) -> Post {
    Post { comments: (p.comments - 1) as i32, ..p }
}

/// `post` with one repost less.
pub open spec fn with_repost_removed(p: Post) -> Post {
    Post { reposts: (p.reposts - 1) as i32, ..p }
}


/// What a new post is made of, as far as the request decided it.
pub struct Draft {
    /// The id that the new post will get.
    pub id: String,
    pub body: String,
    pub appendage_id: Option<String>,
    /// The room the post goes to; a comment goes to its parent's room.
    pub room: Option<String>,
    pub child: Option<String>,
    pub now: i64,
}

/// Creates a post. The body must hold a word and at most `MAX_POST_LEN`
/// bytes. A comment (a post with a parent) lands in its parent's room. A
/// repost of a post in a private room must stay in that room. The parent's
/// comment count and the reposted post's repost count go up by one.
pub enum CreatePost {
    AwaitUser { draft: Draft, parent: Option<String> },
    AwaitParent { user: User, draft: Draft },
    AwaitParentRoom { user: User, draft: Draft, parent: Post },
    AwaitChild { user: User, draft: Draft, parent: Option<Post> },
    AwaitChildRoom { user: User, draft: Draft, parent: Option<Post>, child: Post },
    AwaitRoom { user: User, draft: Draft, parent: Option<Post>, child: Option<Post> },
    AwaitInsert { id: String, parent: Option<Post>, child: Option<Post> },
    AwaitParentSave { id: String, child: Option<Post> },
    AwaitChildSave { id: String },
    Done,
}

/// The row that the draft becomes.
pub open spec fn draft_row(user: User, draft: Draft, parent: Option<Post>, child: Option<Post>, room: Option<Room>) -> Post {
    new_post_row(
        draft.id,
        user.username,
        draft.body,
        draft.appendage_id,
        id_of_room(room),
        id_of_post(parent),
        id_of_post(child),
        draft.now,
    )
}

pub open spec fn insert_step(user: User, draft: Draft, parent: Option<Post>, child: Option<Post>, room: Option<Room>) -> (CreatePost, Action<Outcome>) {
    (
        CreatePost::AwaitInsert { id: draft.id, parent, child },
        Action::Write(Change::InsertPost(draft_row(user, draft, parent, child, room))),
    )
}

pub open spec fn after_child(user: User, draft: Draft, parent: Option<Post>, child: Option<Post>) -> (CreatePost, Action<Outcome>) {
    match draft.room {
        Some(r) => (CreatePost::AwaitRoom { user, draft, parent, child }, Action::Fetch(Key::Room(r))),
        None => insert_step(user, draft, parent, child, None),
    }
}

pub open spec fn after_parent(user: User, draft: Draft, parent: Option<Post>) -> (CreatePost, Action<Outcome>) {
    match draft.child {
        Some(c) => (CreatePost::AwaitChild { user, draft, parent }, Action::Fetch(Key::Post(c))),
        None => after_child(user, draft, parent, None),
    }
}

pub open spec fn after_parent_save(id: String, child: Option<Post>) -> (CreatePost, Action<Outcome>) {
    match child {
        Some(c) => (CreatePost::AwaitChildSave { id }, Action::Write(Change::SavePost(with_repost_added(c)))),
        None => (CreatePost::Done, reply(Reply::PostId(id))),
    }
}

/// A repost of a post in `room` may be made from `target` (the room the new
/// post goes to).
pub open spec fn repost_allowed(room: Room, target: Option<String>) -> bool {
    room.is_private ==> (target matches Some(t) && t@ == room.id@)
}

fn insert_exec(user: User, draft: Draft, parent: Option<Post>, child: Option<Post>, room: Option<Room>) -> (r: (CreatePost, Action<Outcome>))
    ensures
        r == insert_step(user, draft, parent, child, room),
{
    let id = draft.id.clone();
    let row = Post::with_id(
        draft.id,
        &user,
        draft.body,
        draft.appendage_id,
        room.as_ref(),
        parent.as_ref(),
        child.as_ref(),
        draft.now,
    );
    (CreatePost::AwaitInsert { id, parent, child }, Action::Write(Change::InsertPost(row)))
}

fn after_child_exec(user: User, draft: Draft, parent: Option<Post>, child: Option<Post>) -> (r: (CreatePost, Action<Outcome>))
    ensures
        r == after_child(user, draft, parent, child),
{
    match copy_opt(&draft.room) {
        Some(r) => (CreatePost::AwaitRoom { user, draft, parent, child }, Action::Fetch(Key::Room(r))),
        None => insert_exec(user, draft, parent, child, None),
    }
}

fn after_parent_exec(user: User, draft: Draft, parent: Option<Post>) -> (r: (CreatePost, Action<Outcome>))
    ensures
        r == after_parent(user, draft, parent),
{
    match copy_opt(&draft.child) {
        Some(c) => (CreatePost::AwaitChild { user, draft, parent }, Action::Fetch(Key::Post(c))),
        None => after_child_exec(user, draft, parent, None),
    }
}

fn after_parent_save_exec(id: String, child: Option<Post>) -> (r: (CreatePost, Action<Outcome>))
    requires
        child matches Some(c) ==> c.reposts < i32::MAX,
    ensures
        r == after_parent_save(id, child),
{
    match child {
        Some(mut c) => {
            let n = c.get_reposts_amount() + 1;
            c.set_reposts_amount_unchecked(n);
            (CreatePost::AwaitChildSave { id }, Action::Write(Change::SavePost(c)))
        },
        None => (CreatePost::Done, Action::Finish(Ok(Reply::PostId(id)))),
    }
}

fn text_equal_opt(a: &Option<String>, b: &String) -> (r: bool)
    ensures
        r == (a matches Some(x) && x@ == b@),
{
    match a {
        Some(x) => *x == *b,
        None => false,
    }
}

impl CreatePost {
    /// The counters that the machine is about to raise can be raised.
    pub open spec fn admits(&self, e: &Event) -> bool {
        match self {
            CreatePost::AwaitInsert { parent, child, .. } => match e {
                Event::Written(true) => match parent {
                    Some(p) => p.comments < i32::MAX,
                    None => child matches Some(c) ==> c.reposts < i32::MAX,
                },
                _ => true,
            },
            CreatePost::AwaitParentSave { child, .. } => child matches Some(c) ==> c.reposts < i32::MAX,
            _ => true,
        }
    }

    pub fn accepts(&self, e: &Event) -> (r: bool)
        ensures
            r == self.admits(e),
    {
        match self {
            CreatePost::AwaitInsert { parent, child, .. } => match e {
                Event::Written(true) => match parent {
                    Some(p) => p.comments < i32::MAX,
                    None => match child {
                        Some(c) => c.reposts < i32::MAX,
                        None => true,
                    },
                },
                _ => true,
            },
            CreatePost::AwaitParentSave { child, .. } => match child {
                Some(c) => c.reposts < i32::MAX,
                None => true,
            },
            _ => true,
        }
    }

    pub open spec fn next(self, e: Event) -> (CreatePost, Action<Outcome>) {
        match self {
            CreatePost::AwaitUser { draft, parent } => match authenticated(e) {
                Err(x) => (CreatePost::Done, fail(x)),
                Ok(user) => if is_blank(draft.body@) {
                    (CreatePost::Done, fail(ApiError::EmptyContent))
                } else if byte_len(draft.body@) > MAX_POST_LEN {
                    (CreatePost::Done, fail(ApiError::ContentTooLarge))
                } else {
                    match parent {
                        Some(p) => (CreatePost::AwaitParent { user, draft }, Action::Fetch(Key::Post(p))),
                        None => after_parent(user, draft, None),
                    }
                },
            },
            CreatePost::AwaitParent { user, draft } => match found_post(e, ApiError::PostDoesNotExist) {
                Err(x) => (CreatePost::Done, fail(x)),
                Ok(p) => match p.room {
                    Some(r) => (CreatePost::AwaitParentRoom { user, draft, parent: p }, Action::Fetch(Key::Room(r))),
                    None => after_parent(user, draft, Some(p)),
                },
            },
            CreatePost::AwaitParentRoom { user, draft, parent } => match found_room(e, ApiError::RoomDoesNotExist) {
                Err(x) => (CreatePost::Done, fail(x)),
                Ok(r) => after_parent(user, Draft { room: Some(r.id), ..draft }, Some(parent)),
            },
            CreatePost::AwaitChild { user, draft, parent } => match found_post(e, ApiError::PostDoesNotExist) {
                Err(x) => (CreatePost::Done, fail(x)),
                Ok(c) => match c.room {
                    Some(r) => (CreatePost::AwaitChildRoom { user, draft, parent, child: c }, Action::Fetch(Key::Room(r))),
                    None => after_child(user, draft, parent, Some(c)),
                },
            },
            CreatePost::AwaitChildRoom { user, draft, parent, child } => match found_room(e, ApiError::RoomDoesNotExist) {
                Err(x) => (CreatePost::Done, fail(x)),
                Ok(r) => if !repost_allowed(r, draft.room) {
                    (CreatePost::Done, fail(ApiError::RoomBoundaryViolation))
                } else {
                    after_child(user, draft, parent, Some(child))
                },
            },
            CreatePost::AwaitRoom { user, draft, parent, child } => match found_room(e, ApiError::InternalServer) {
                Err(x) => (CreatePost::Done, fail(x)),
                Ok(r) => insert_step(user, draft, parent, child, Some(r)),
            },
            CreatePost::AwaitInsert { id, parent, child } => match write_ok(e) {
                Err(x) => (CreatePost::Done, fail(x)),
                Ok(_) => match parent {
                    Some(p) => (CreatePost::AwaitParentSave { id, child }, Action::Write(Change::SavePost(with_comment_added(p)))),
                    None => after_parent_save(id, child),
                },
            },
            CreatePost::AwaitParentSave { id, child } => after_parent_save(id, child),
            CreatePost::AwaitChildSave { id } => (CreatePost::Done, reply(Reply::PostId(id))),
            CreatePost::Done => (CreatePost::Done, fail(ApiError::InternalServer)),
        }
    }

    pub fn step(self, e: Event) -> (r: (CreatePost, Action<Outcome>))
        requires
            self.admits(&e),
        ensures
            r == self.next(e),
    {
        match self {
            CreatePost::AwaitUser { draft, parent } => match authenticated_user(e) {
                Err(x) => (CreatePost::Done, Action::Finish(Err(x))),
                Ok(user) => if blank(draft.body.as_str()) {
                    (CreatePost::Done, Action::Finish(Err(ApiError::EmptyContent)))
                } else if draft.body.as_str().len() > MAX_POST_LEN {
                    (CreatePost::Done, Action::Finish(Err(ApiError::ContentTooLarge)))
                } else {
                    match parent {
                        Some(p) => (CreatePost::AwaitParent { user, draft }, Action::Fetch(Key::Post(p))),
                        None => after_parent_exec(user, draft, None),
                    }
                },
            },
            CreatePost::AwaitParent { user, draft } => match post_found(e, ApiError::PostDoesNotExist) {
                Err(x) => (CreatePost::Done, Action::Finish(Err(x))),
                Ok(p) => match p.get_room() {
                    Some(r) => (CreatePost::AwaitParentRoom { user, draft, parent: p }, Action::Fetch(Key::Room(r))),
                    None => after_parent_exec(user, draft, Some(p)),
                },
            },
            CreatePost::AwaitParentRoom { user, draft, parent } => match room_found(e, ApiError::RoomDoesNotExist) {
                Err(x) => (CreatePost::Done, Action::Finish(Err(x))),
                Ok(r) => after_parent_exec(user, Draft { room: Some(r.id), ..draft }, Some(parent)),
            },
            CreatePost::AwaitChild { user, draft, parent } => match post_found(e, ApiError::PostDoesNotExist) {
                Err(x) => (CreatePost::Done, Action::Finish(Err(x))),
                Ok(c) => match c.get_room() {
                    Some(r) => (CreatePost::AwaitChildRoom { user, draft, parent, child: c }, Action::Fetch(Key::Room(r))),
                    None => after_child_exec(user, draft, parent, Some(c)),
                },
            },
            CreatePost::AwaitChildRoom { user, draft, parent, child } => match room_found(e, ApiError::RoomDoesNotExist) {
                Err(x) => (CreatePost::Done, Action::Finish(Err(x))),
                Ok(r) => if r.is_private() && !text_equal_opt(&draft.room, &r.id) {
                    (CreatePost::Done, Action::Finish(Err(ApiError::RoomBoundaryViolation)))
                } else {
                    after_child_exec(user, draft, parent, Some(child))
                },
            },
            CreatePost::AwaitRoom { user, draft, parent, child } => match room_found(e, ApiError::InternalServer) {
                Err(x) => (CreatePost::Done, Action::Finish(Err(x))),
                Ok(r) => insert_exec(user, draft, parent, child, Some(r)),
            },
            CreatePost::AwaitInsert { id, parent, child } => match written(e) {
                Err(x) => (CreatePost::Done, Action::Finish(Err(x))),
                Ok(_) => match parent {
                    Some(mut p) => {
                        let n = p.get_comments_amount() + 1;
                        p.set_comments_amount_unchecked(n);
                        (CreatePost::AwaitParentSave { id, child }, Action::Write(Change::SavePost(p)))
                    },
                    None => after_parent_save_exec(id, child),
                },
            },
            CreatePost::AwaitParentSave { id, child } => after_parent_save_exec(id, child),
            CreatePost::AwaitChildSave { id } => (CreatePost::Done, Action::Finish(Ok(Reply::PostId(id)))),
            CreatePost::Done => (CreatePost::Done, Action::Finish(Err(ApiError::InternalServer))),
        }
    }
}

/// Starts creating a post from `post_data` at time `now`; the post's id is
/// drawn now and kept in the draft.
pub fn create_post(post_data: PostCreationData, now: i64) -> (r: (CreatePost, Action<Outcome>))
    ensures
        r.1 == Action::<Outcome>::Authenticate,
        r.0 matches CreatePost::AwaitUser { draft, parent } && is_hyphenated_v4(draft.id@) && draft.body
            == post_data.body && draft.appendage_id == post_data.appendage_id && draft.room
            == post_data.room && draft.child == post_data.child && draft.now == now && parent
            == post_data.parent,
{
    let draft = Draft {
        id: crate::bindings::fresh_id(),
        body: post_data.body,
        appendage_id: post_data.appendage_id,
        room: post_data.room,
        child: post_data.child,
        now,
    };
    (CreatePost::AwaitUser { draft, parent: post_data.parent }, Action::Authenticate)
}

/// Deletes a post of the requesting user. The parent's comment count and the
/// reposted post's repost count go down by one; the post's ratings are
/// deleted in the background.
pub enum DeletePost {
    AwaitUser { post_id: String },
    AwaitPost { user: User },
    AwaitParent { post: Post },
    AwaitChild { post: Post, parent: Option<Post> },
    AwaitDelete { post_id: String, parent: Option<Post>, child: Option<Post> },
    AwaitParentSave { post_id: String, child: Option<Post> },
    AwaitChildSave { post_id: String },
    AwaitSpawn,
    Done,
}

/// The post that a lookup found, if any; a failed lookup counts as absent.
pub open spec fn found_or_none(e: Event) -> Option<Post> {
    match e {
        Event::PostRow(Lookup::Found(p)) => Some(p),
        _ => None,
    }
}

pub fn post_or_none(e: Event) -> (r: Option<Post>)
    ensures
        r == found_or_none(e),
{
    match e {
        Event::PostRow(Lookup::Found(p)) => Some(p),
        _ => None,
    }
}

pub open spec fn delete_after_parent(post: Post, parent: Option<Post>) -> (DeletePost, Action<Outcome>) {
    match post.child {
        Some(c) => (DeletePost::AwaitChild { post, parent }, Action::Fetch(Key::Post(c))),
        None => (
            DeletePost::AwaitDelete { post_id: post.id, parent, child: None },
            Action::Write(Change::DeletePost(post.id)),
        ),
    }
}

pub open spec fn delete_after_parent_save(post_id: String, child: Option<Post>) -> (DeletePost, Action<Outcome>) {
    match child {
        Some(c) => (DeletePost::AwaitChildSave { post_id }, Action::Write(Change::SavePost(with_repost_removed(c)))),
        None => (DeletePost::AwaitSpawn, Action::Spawn(Task::DeleteRatingsOf(post_id))),
    }
}

fn delete_after_parent_exec(post: Post, parent: Option<Post>) -> (r: (DeletePost, Action<Outcome>))
    ensures
        r == delete_after_parent(post, parent),
{
    match post.get_child() {
        Some(c) => (DeletePost::AwaitChild { post, parent }, Action::Fetch(Key::Post(c))),
        None => {
            let id = post.get_id();
            (DeletePost::AwaitDelete { post_id: post.id, parent, child: None }, Action::Write(Change::DeletePost(id)))
        },
    }
}

fn delete_after_parent_save_exec(post_id: String, child: Option<Post>) -> (r: (DeletePost, Action<Outcome>))
    requires
        child matches Some(c) ==> c.reposts > i32::MIN,
    ensures
        r == delete_after_parent_save(post_id, child),
{
    match child {
        Some(mut c) => {
            let n = c.get_reposts_amount() - 1;
            c.set_reposts_amount_unchecked(n);
            (DeletePost::AwaitChildSave { post_id }, Action::Write(Change::SavePost(c)))
        },
        None => (DeletePost::AwaitSpawn, Action::Spawn(Task::DeleteRatingsOf(post_id))),
    }
}

impl DeletePost {
    /// The counters that the machine is about to lower can be lowered.
    pub open spec fn admits(&self, e: &Event) -> bool {
        match self {
            DeletePost::AwaitDelete { parent, child, .. } => match e {
                Event::Written(true) => match parent {
                    Some(p) => p.comments > i32::MIN,
                    None => child matches Some(c) ==> c.reposts > i32::MIN,
                },
                _ => true,
            },
            DeletePost::AwaitParentSave { child, .. } => child matches Some(c) ==> c.reposts > i32::MIN,
            _ => true,
        }
    }

    pub fn accepts(&self, e: &Event) -> (r: bool)
        ensures
            r == self.admits(e),
    {
        match self {
            DeletePost::AwaitDelete { parent, child, .. } => match e {
                Event::Written(true) => match parent {
                    Some(p) => p.comments > i32::MIN,
                    None => match child {
                        Some(c) => c.reposts > i32::MIN,
                        None => true,
                    },
                },
                _ => true,
            },
            DeletePost::AwaitParentSave { child, .. } => match child {
                Some(c) => c.reposts > i32::MIN,
                None => true,
            },
            _ => true,
        }
    }

    pub open spec fn next(self, e: Event) -> (DeletePost, Action<Outcome>) {
        match self {
            DeletePost::AwaitUser { post_id } => match authenticated(e) {
                Err(x) => (DeletePost::Done, fail(x)),
                Ok(user) => (DeletePost::AwaitPost { user }, Action::Fetch(Key::Post(post_id))),
            },
            DeletePost::AwaitPost { user } => match found_post(e, ApiError::PostDoesNotExist) {
                Err(x) => (DeletePost::Done, fail(x)),
                Ok(p) => if user.username@ != p.creator@ {
                    (DeletePost::Done, fail(ApiError::InsufficientPermissions))
                } else {
                    match p.parent {
                        Some(pp) => (DeletePost::AwaitParent { post: p }, Action::Fetch(Key::Post(pp))),
                        None => delete_after_parent(p, None),
                    }
                },
            },
            DeletePost::AwaitParent { post } => delete_after_parent(post, found_or_none(e)),
            DeletePost::AwaitChild { post, parent } => (
                DeletePost::AwaitDelete { post_id: post.id, parent, child: found_or_none(e) },
                Action::Write(Change::DeletePost(post.id)),
            ),
            DeletePost::AwaitDelete { post_id, parent, child } => match write_ok(e) {
                Err(x) => (DeletePost::Done, fail(x)),
                Ok(_) => match parent {
                    Some(p) => (
                        DeletePost::AwaitParentSave { post_id, child },
                        Action::Write(Change::SavePost(with_comment_removed(p))),
                    ),
                    None => delete_after_parent_save(post_id, child),
                },
            },
            DeletePost::AwaitParentSave { post_id, child } => delete_after_parent_save(post_id, child),
            DeletePost::AwaitChildSave { post_id } => (DeletePost::AwaitSpawn, Action::Spawn(Task::DeleteRatingsOf(post_id))),
            DeletePost::AwaitSpawn => (DeletePost::Done, reply(Reply::Empty)),
            DeletePost::Done => (DeletePost::Done, fail(ApiError::InternalServer)),
        }
    }

    pub fn step(self, e: Event) -> (r: (DeletePost, Action<Outcome>))
        requires
            self.admits(&e),
        ensures
            r == self.next(e),
    {
        match self {
            DeletePost::AwaitUser { post_id } => match authenticated_user(e) {
                Err(x) => (DeletePost::Done, Action::Finish(Err(x))),
                Ok(user) => (DeletePost::AwaitPost { user }, Action::Fetch(Key::Post(post_id))),
            },
            DeletePost::AwaitPost { user } => match post_found(e, ApiError::PostDoesNotExist) {
                Err(x) => (DeletePost::Done, Action::Finish(Err(x))),
                Ok(p) => if user.username != p.creator {
                    (DeletePost::Done, Action::Finish(Err(ApiError::InsufficientPermissions)))
                } else {
                    match p.get_parent() {
                        Some(pp) => (DeletePost::AwaitParent { post: p }, Action::Fetch(Key::Post(pp))),
                        None => delete_after_parent_exec(p, None),
                    }
                },
            },
            DeletePost::AwaitParent { post } => delete_after_parent_exec(post, post_or_none(e)),
            DeletePost::AwaitChild { post, parent } => {
                let id = post.get_id();
                (
                    DeletePost::AwaitDelete { post_id: post.id, parent, child: post_or_none(e) },
                    Action::Write(Change::DeletePost(id)),
                )
            },
            DeletePost::AwaitDelete { post_id, parent, child } => match written(e) {
                Err(x) => (DeletePost::Done, Action::Finish(Err(x))),
                Ok(_) => match parent {
                    Some(mut p) => {
                        let n = p.get_comments_amount() - 1;
                        p.set_comments_amount_unchecked(n);
                        (DeletePost::AwaitParentSave { post_id, child }, Action::Write(Change::SavePost(p)))
                    },
                    None => delete_after_parent_save_exec(post_id, child),
                },
            },
            DeletePost::AwaitParentSave { post_id, child } => delete_after_parent_save_exec(post_id, child),
            DeletePost::AwaitChildSave { post_id } => (DeletePost::AwaitSpawn, Action::Spawn(Task::DeleteRatingsOf(post_id))),
            DeletePost::AwaitSpawn => (DeletePost::Done, Action::Finish(Ok(Reply::Empty))),
            DeletePost::Done => (DeletePost::Done, Action::Finish(Err(ApiError::InternalServer))),
        }
    }
}

pub fn delete_post(post_id: String) -> (r: (DeletePost, Action<Outcome>))
    ensures
        r == (DeletePost::AwaitUser { post_id }, Action::<Outcome>::Authenticate),
{
    (DeletePost::AwaitUser { post_id }, Action::Authenticate)
}

/// Only its creator can delete a post: anyone else is refused before
/// anything is written.
pub proof fn law_only_creator_deletes(user: User, p: Post)
    requires
        user.username@ != p.creator@,
    ensures
        (DeletePost::AwaitPost { user }).next(Event::PostRow(Lookup::Found(p))) == (
            DeletePost::Done,
            fail(ApiError::InsufficientPermissions),
        ),
{
}

/// Shows one post to the requesting user. A post outside every room is shown
/// to everyone; a post in a public room too; a post in a private room only to
/// the room's members. A post whose room cannot be read is not found.
pub enum GetPost {
    AwaitUser { post_id: String },
    AwaitPost { user: User },
    AwaitRoom { user: User, post: Post },
    AwaitMembership { user: User, post: Post },
    AwaitDescribed,
    Done,
}

impl GetPost {
    pub open spec fn admits(&self, e: &Event) -> bool {
        true
    }

    pub fn accepts(&self, e: &Event) -> (r: bool)
        ensures
            r == self.admits(e),
    {
        true
    }

    pub open spec fn next(self, e: Event) -> (GetPost, Action<Outcome>) {
        match self {
            GetPost::AwaitUser { post_id } => match authenticated(e) {
                Err(x) => (GetPost::Done, fail(x)),
                Ok(user) => (GetPost::AwaitPost { user }, Action::Fetch(Key::Post(post_id))),
            },
            GetPost::AwaitPost { user } => match found_post(e, ApiError::PostDoesNotExist) {
                Err(x) => (GetPost::Done, fail(x)),
                Ok(post) => match post.room {
                    None => (GetPost::AwaitDescribed, Action::DescribeOne { user, post }),
                    Some(r) => (GetPost::AwaitRoom { user, post }, Action::Fetch(Key::Room(r))),
                },
            },
            GetPost::AwaitRoom { user, post } => match found_room(e, ApiError::PostDoesNotExist) {
                Err(x) => (GetPost::Done, fail(x)),
                Ok(room) => if room.is_private {
                    (
                        GetPost::AwaitMembership { user, post },
                        Action::Fetch(Key::Membership { user: user.username, room: room.id }),
                    )
                } else {
                    (GetPost::AwaitDescribed, Action::DescribeOne { user, post })
                },
            },
            GetPost::AwaitMembership { user, post } => match e {
                Event::MembershipRow(Lookup::Found(_)) => (GetPost::AwaitDescribed, Action::DescribeOne { user, post }),
                Event::MembershipRow(_) => (GetPost::Done, fail(ApiError::RoomBoundaryViolation)),
                _ => (GetPost::Done, fail(ApiError::InternalServer)),
            },
            GetPost::AwaitDescribed => match e {
                Event::DescribedOne(d) => (GetPost::Done, reply(Reply::Post(d))),
                _ => (GetPost::Done, fail(ApiError::InternalServer)),
            },
            GetPost::Done => (GetPost::Done, fail(ApiError::InternalServer)),
        }
    }

    pub fn step(self, e: Event) -> (r: (GetPost, Action<Outcome>))
        requires
            self.admits(&e),
        ensures
            r == self.next(e),
    {
        match self {
            GetPost::AwaitUser { post_id } => match authenticated_user(e) {
                Err(x) => (GetPost::Done, Action::Finish(Err(x))),
                Ok(user) => (GetPost::AwaitPost { user }, Action::Fetch(Key::Post(post_id))),
            },
            GetPost::AwaitPost { user } => match post_found(e, ApiError::PostDoesNotExist) {
                Err(x) => (GetPost::Done, Action::Finish(Err(x))),
                Ok(post) => match post.get_room() {
                    None => (GetPost::AwaitDescribed, Action::DescribeOne { user, post }),
                    Some(r) => (GetPost::AwaitRoom { user, post }, Action::Fetch(Key::Room(r))),
                },
            },
            GetPost::AwaitRoom { user, post } => match room_found(e, ApiError::PostDoesNotExist) {
                Err(x) => (GetPost::Done, Action::Finish(Err(x))),
                Ok(room) => if room.is_private() {
                    let username = user.get_username();
                    (
                        GetPost::AwaitMembership { user, post },
                        Action::Fetch(Key::Membership { user: username, room: room.id }),
                    )
                } else {
                    (GetPost::AwaitDescribed, Action::DescribeOne { user, post })
                },
            },
            GetPost::AwaitMembership { user, post } => match e {
                Event::MembershipRow(Lookup::Found(_)) => (GetPost::AwaitDescribed, Action::DescribeOne { user, post }),
                Event::MembershipRow(_) => (GetPost::Done, Action::Finish(Err(ApiError::RoomBoundaryViolation))),
                _ => (GetPost::Done, Action::Finish(Err(ApiError::InternalServer))),
            },
            GetPost::AwaitDescribed => match e {
                Event::DescribedOne(d) => (GetPost::Done, Action::Finish(Ok(Reply::Post(d)))),
                _ => (GetPost::Done, Action::Finish(Err(ApiError::InternalServer))),
            },
            GetPost::Done => (GetPost::Done, Action::Finish(Err(ApiError::InternalServer))),
        }
    }
}

pub fn get_post(post_id: String) -> (r: (GetPost, Action<Outcome>))
    ensures
        r == (GetPost::AwaitUser { post_id }, Action::<Outcome>::Authenticate),
{
    (GetPost::AwaitUser { post_id }, Action::Authenticate)
}

/// A post outside every room is shown to everyone who is signed in.
pub proof fn law_public_space_post_is_shown(user: User, post: Post)
    requires
        post.room is None,
    ensures
        (GetPost::AwaitPost { user }).next(Event::PostRow(Lookup::Found(post))) == (
            GetPost::AwaitDescribed,
            Action::<Outcome>::DescribeOne { user, post },
        ),
{
}

/// A post in a private room is shown only to someone whose membership of the
/// room is found.
pub proof fn law_private_post_needs_membership(user: User, post: Post, room: Room, e: Event)
    requires
        room.is_private,
        !(e matches Event::MembershipRow(Lookup::Found(_))),
    ensures
        ({
            let (s, a) = (GetPost::AwaitRoom { user, post }).next(Event::RoomRow(Lookup::Found(room)));
            &&& a == Action::<Outcome>::Fetch(Key::Membership { user: user.username, room: room.id })
            &&& s.next(e).1 matches Action::Finish(Err(_))
        }),
{
}

/// Deleting a comment undoes its creation on the parent: the parent that the
/// deletion saves is the parent as it was before the comment.
pub proof fn law_comment_deletion_restores_parent(id: String, parent: Post, child: Option<Post>)
    requires
        parent.comments < i32::MAX,
    ensures
        (CreatePost::AwaitInsert { id, parent: Some(parent), child }).next(Event::Written(true)).1
            == Action::<Outcome>::Write(Change::SavePost(with_comment_added(parent))),
        (DeletePost::AwaitDelete { post_id: id, parent: Some(with_comment_added(parent)), child }).next(
            Event::Written(true),
        ).1 == Action::<Outcome>::Write(Change::SavePost(parent)),
{
}

/// Deleting a repost undoes its creation on the reposted post: the post that
/// the deletion saves is the reposted post as it was before the repost.
pub proof fn law_repost_deletion_restores_reposted(id: String, reposted: Post)
    requires
        reposted.reposts < i32::MAX,
    ensures
        (CreatePost::AwaitInsert { id, parent: None, child: Some(reposted) }).next(Event::Written(true)).1
            == Action::<Outcome>::Write(Change::SavePost(with_repost_added(reposted))),
        (DeletePost::AwaitDelete { post_id: id, parent: None, child: Some(with_repost_added(reposted)) }).next(
            Event::Written(true),
        ).1 == Action::<Outcome>::Write(Change::SavePost(reposted)),
{
}

/// A comment lands in its parent's room, whatever room the request named:
/// when the parent lies in a room that is found, the comment is inserted into
/// that room, as a post of the requesting user that answers the parent.
pub proof fn law_comment_lands_in_parent_room(user: User, draft: Draft, parent: Post, room: Room, found: Room)
    requires
        draft.child is None,
        parent.room == Some(room.id),
        found.id == room.id,
    ensures
        ({
            let (s1, a1) = (CreatePost::AwaitParent { user, draft }).next(Event::PostRow(Lookup::Found(parent)));
            let (s2, a2) = s1.next(Event::RoomRow(Lookup::Found(room)));
            let a3 = s2.next(Event::RoomRow(Lookup::Found(found))).1;
            &&& a1 == Action::<Outcome>::Fetch(Key::Room(room.id))
            &&& a2 == Action::<Outcome>::Fetch(Key::Room(room.id))
            &&& a3 matches Action::Write(Change::InsertPost(row))
            &&& row.room == Some(room.id)
            &&& row.parent == Some(parent.id)
            &&& row.creator == user.username
            &&& row.body == draft.body
            &&& row.id == draft.id
        }),
{
}

/// A post that answers no post, reposts none and names no room is inserted
/// as the requesting user's, outside every room, with its body, appendage,
/// id and time and every counter at zero, and its id is the answer. A body
/// without a word is `EmptyContent` and one over 300 bytes `ContentTooLarge`.
pub proof fn law_plain_post_is_inserted(user: User, draft: Draft, e: Event)
    requires
        draft.child is None,
        draft.room is None,
    ensures
        ({
            let (s, a) = (CreatePost::AwaitUser { draft, parent: None }).next(Event::Authenticated(Some(user)));
            &&& is_blank(draft.body@) ==> a == fail(ApiError::EmptyContent)
            &&& !is_blank(draft.body@) && byte_len(draft.body@) > 300 ==> a == fail(ApiError::ContentTooLarge)
            &&& !is_blank(draft.body@) && byte_len(draft.body@) <= 300 ==> {
                &&& a == Action::<Outcome>::Write(
                    Change::InsertPost(Post {
                        id: draft.id,
                        creator: user.username,
                        body: draft.body,
                        timestamp: draft.now,
                        rating: 0,
                        appendage_id: draft.appendage_id,
                        room: None,
                        parent: None,
                        comments: 0,
                        shares: 0,
                        reposts: 0,
                        bookmarks: 0,
                        child: None,
                    }),
                )
                &&& s.next(Event::Written(true)).1 == reply(Reply::PostId(draft.id))
            }
        }),
{
}

/// A repost of a post in a private room is refused unless it goes to that
/// same room.
pub proof fn law_repost_stays_in_private_room(user: User, draft: Draft, parent: Option<Post>, child: Post, room: Room)
    requires
        room.is_private,
        !(draft.room matches Some(t) && t@ == room.id@),
    ensures
        (CreatePost::AwaitChildRoom { user, draft, parent, child }).next(Event::RoomRow(Lookup::Found(room))).1
            == fail(ApiError::RoomBoundaryViolation),
{
}

/// Its creator deletes a post that answers none and reposts none: the post
/// with the requested id is deleted and its ratings are cleared in the
/// background.
pub proof fn law_creator_deletes_the_post(post_id: String, user: User, p: Post)
    requires
        p.creator@ == user.username@,
        p.parent is None,
        p.child is None,
    ensures
        ({
            let (s1, a1) = (DeletePost::AwaitUser { post_id }).next(Event::Authenticated(Some(user)));
            let (s2, a2) = s1.next(Event::PostRow(Lookup::Found(p)));
            let (s3, a3) = s2.next(Event::Written(true));
            &&& a1 == Action::<Outcome>::Fetch(Key::Post(post_id))
            &&& a2 == Action::<Outcome>::Write(Change::DeletePost(p.id))
            &&& a3 == Action::<Outcome>::Spawn(Task::DeleteRatingsOf(p.id))
            &&& s3.next(Event::Spawned).1 == reply(Reply::Empty)
        }),
{
}

/// A new comment raises its parent's comment count by exactly one and a new
/// repost the reposted post's repost count by exactly one, leaving every
/// other field as it was; deleting them lowers those counts by exactly one.
pub proof fn law_counts_move_by_one(id: String, p: Post)
    requires
        i32::MIN < p.comments < i32::MAX,
        i32::MIN < p.reposts < i32::MAX,
    ensures
        (CreatePost::AwaitInsert { id, parent: Some(p), child: None }).next(Event::Written(true)).1
            == Action::<Outcome>::Write(Change::SavePost(Post { comments: (p.comments + 1) as i32, ..p })),
        (CreatePost::AwaitInsert { id, parent: None, child: Some(p) }).next(Event::Written(true)).1
            == Action::<Outcome>::Write(Change::SavePost(Post { reposts: (p.reposts + 1) as i32, ..p })),
        (DeletePost::AwaitDelete { post_id: id, parent: Some(p), child: None }).next(Event::Written(true)).1
            == Action::<Outcome>::Write(Change::SavePost(Post { comments: (p.comments - 1) as i32, ..p })),
        (DeletePost::AwaitDelete { post_id: id, parent: None, child: Some(p) }).next(Event::Written(true)).1
            == Action::<Outcome>::Write(Change::SavePost(Post { reposts: (p.reposts - 1) as i32, ..p })),
{
}

/// A post that names a room, answers no post and reposts none goes into that
/// room once the room is found; a room that is not found is an internal
/// error.
pub proof fn law_post_goes_into_its_room(user: User, draft: Draft, room: Room)
    requires
        draft.child is None,
        draft.room == Some(room.id),
        !is_blank(draft.body@),
        byte_len(draft.body@) <= 300,
    ensures
        ({
            let (s, a) = (CreatePost::AwaitUser { draft, parent: None }).next(Event::Authenticated(Some(user)));
            &&& a == Action::<Outcome>::Fetch(Key::Room(room.id))
            &&& s.next(Event::RoomRow(Lookup::Found(room))).1 matches Action::Write(Change::InsertPost(row))
            &&& row.room == Some(room.id) && row.parent is None && row.child is None
            &&& row.creator == user.username && row.id == draft.id
            &&& s.next(Event::RoomRow(Lookup::Missing)).1 == fail(ApiError::InternalServer)
        }),
{
}

} // verus!
