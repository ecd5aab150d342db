//! Rooms: creation, administration and membership.
use vstd::prelude::*;

use crate::api::{joined_user_of, joined_users};
use crate::bindings::{fresh_id, is_hyphenated_v4};
use crate::error::ApiError;
use crate::flow::{
    authenticated, authenticated_user, fail, found_room, found_user, page_fits, page_in_range, page_offset,
    read_page, reply, room_found, user_found, write_ok, written, Action, Change, Event, Key, Listing, Lookup,
    Outcome, Reply, Task,
};
use crate::models::{
    new_room_row, room_data_fits, Ban, Membership, Room, User, MAX_ROOM_DESCRIPTION_LEN, MAX_ROOM_NAME_LEN,
};
use crate::text::byte_len;

verus! {

pub struct RoomCreationData {
    pub name: String,
    pub description: String,
    pub color: String,
    pub is_private: bool,
}

/// The room that an event names, provided that `user` owns it.
pub open spec fn owned_room(e: Event, user: User) -> Result<Room, ApiError> {
    match found_room(e, ApiError::RoomDoesNotExist) {
        Err(x) => Err(x),
        Ok(r) => if r.owner@ != user.username@ {
            Err(ApiError::InsufficientPermissions)
        } else {
            Ok(r)
        },
    }
}

pub fn room_owned_by(e: Event, user: &User) -> (r: Result<Room, ApiError>)
    ensures
        r == owned_room(e, *user),
{
    match room_found(e, ApiError::RoomDoesNotExist) {
        Err(x) => Err(x),
        Ok(r) => if r.owner != user.username {
            Err(ApiError::InsufficientPermissions)
        } else {
            Ok(r)
        },
    }
}

/// Creates a room owned by the requesting user, with the user as its first
/// member, in one transaction.
pub enum CreateRoom {
    AwaitUser { data: RoomCreationData, now: i64, room_id: String },
    AwaitBegin { room: Room, membership: Membership },
    AwaitRoomInsert { room_id: String, membership: Membership },
    AwaitMembershipInsert { room_id: String },
    AwaitCommit { room_id: String },
    AwaitRollback,
    Done,
}

impl CreateRoom {
    pub open spec fn admits(&self, e: &Event) -> bool {
        true
    }

    pub fn accepts(&self, e: &Event) -> (r: bool)
        ensures
            r == self.admits(e),
    {
        true
    }

    pub open spec fn next(self, e: Event) -> (CreateRoom, Action<Outcome>) {
        match self {
            CreateRoom::AwaitUser { data, now, room_id } => match authenticated(e) {
                Err(x) => (CreateRoom::Done, fail(x)),
                Ok(user) => if !room_data_fits(data) {
                    (CreateRoom::Done, fail(ApiError::ContentTooLarge))
                } else {
                    (
                        CreateRoom::AwaitBegin {
                            room: new_room_row(room_id, data, user.username, now),
                            membership: Membership { user: user.username, room: room_id, date_joined: now },
                        },
                        Action::Begin,
                    )
                },
            },
            CreateRoom::AwaitBegin { room, membership } => match e {
                Event::Written(true) => (
                    CreateRoom::AwaitRoomInsert { room_id: room.id, membership },
                    Action::Write(Change::InsertRoom(room)),
                ),
                _ => (CreateRoom::Done, fail(ApiError::InternalServer)),
            },
            CreateRoom::AwaitRoomInsert { room_id, membership } => match e {
                Event::Written(true) => (
                    CreateRoom::AwaitMembershipInsert { room_id },
                    Action::Write(Change::InsertMembership(membership)),
                ),
                _ => (CreateRoom::AwaitRollback, Action::Rollback),
            },
            CreateRoom::AwaitMembershipInsert { room_id } => match e {
                Event::Written(true) => (CreateRoom::AwaitCommit { room_id }, Action::Commit),
                _ => (CreateRoom::AwaitRollback, Action::Rollback),
            },
            CreateRoom::AwaitCommit { room_id } => match e {
                Event::Written(true) => (CreateRoom::Done, reply(Reply::RoomId(room_id))),
                _ => (CreateRoom::Done, fail(ApiError::InternalServer)),
            },
            CreateRoom::AwaitRollback => (CreateRoom::Done, fail(ApiError::InternalServer)),
            CreateRoom::Done => (CreateRoom::Done, fail(ApiError::InternalServer)),
        }
    }

    pub fn step(self, e: Event) -> (r: (CreateRoom, Action<Outcome>))
        requires
            self.admits(&e),
        ensures
            r == self.next(e),
    {
        match self {
            CreateRoom::AwaitUser { data, now, room_id } => match authenticated_user(e) {
                Err(x) => (CreateRoom::Done, Action::Finish(Err(x))),
                Ok(user) => match Room::try_open_with_id(room_id, data, &user, now) {
                    Err(x) => (CreateRoom::Done, Action::Finish(Err(x))),
                    Ok(room) => {
                        let membership = Membership::new(&user, &room, now);
                        (CreateRoom::AwaitBegin { room, membership }, Action::Begin)
                    },
                },
            },
            CreateRoom::AwaitBegin { room, membership } => match e {
                Event::Written(true) => {
                    let room_id = room.get_id();
                    (CreateRoom::AwaitRoomInsert { room_id, membership }, Action::Write(Change::InsertRoom(room)))
                },
                _ => (CreateRoom::Done, Action::Finish(Err(ApiError::InternalServer))),
            },
            CreateRoom::AwaitRoomInsert { room_id, membership } => match e {
                Event::Written(true) => (
                    CreateRoom::AwaitMembershipInsert { room_id },
                    Action::Write(Change::InsertMembership(membership)),
                ),
                _ => (CreateRoom::AwaitRollback, Action::Rollback),
            },
            CreateRoom::AwaitMembershipInsert { room_id } => match e {
                Event::Written(true) => (CreateRoom::AwaitCommit { room_id }, Action::Commit),
                _ => (CreateRoom::AwaitRollback, Action::Rollback),
            },
            CreateRoom::AwaitCommit { room_id } => match e {
                Event::Written(true) => (CreateRoom::Done, Action::Finish(Ok(Reply::RoomId(room_id)))),
                _ => (CreateRoom::Done, Action::Finish(Err(ApiError::InternalServer))),
            },
            CreateRoom::AwaitRollback => (CreateRoom::Done, Action::Finish(Err(ApiError::InternalServer))),
            CreateRoom::Done => (CreateRoom::Done, Action::Finish(Err(ApiError::InternalServer))),
        }
    }
}

/// Starts creating a room at time `now`; the room's id is drawn now.
pub fn create_room(data: RoomCreationData, now: i64) -> (r: (CreateRoom, Action<Outcome>))
    ensures
        r.1 == Action::<Outcome>::Authenticate,
        r.0 matches CreateRoom::AwaitUser { data: d, now: t, room_id } && d == data && t == now && is_hyphenated_v4(room_id@),
{
    (CreateRoom::AwaitUser { data, now, room_id: fresh_id() }, Action::Authenticate)
}

/// A new room belongs to its creator, and its creator is its first member.
pub proof fn law_creator_owns_and_joins_room(data: RoomCreationData, now: i64, room_id: String, user: User)
    requires
        room_data_fits(data),
    ensures
        (CreateRoom::AwaitUser { data, now, room_id }).next(Event::Authenticated(Some(user))).0 matches CreateRoom::AwaitBegin { room, membership }
            && room.owner == user.username && room.id == room_id && membership.user == user.username
            && membership.room == room_id,
{
}

/// Lists every room that the requesting user belongs to.
pub enum GetJoinedRooms {
    AwaitUser,
    AwaitRooms,
    Done,
}

impl GetJoinedRooms {
    pub open spec fn admits(&self, e: &Event) -> bool {
        true
    }

    pub fn accepts(&self, e: &Event) -> (r: bool)
        ensures
            r == self.admits(e),
    {
        true
    }

    pub open spec fn next(self, e: Event) -> (GetJoinedRooms, Action<Outcome>) {
        match self {
            GetJoinedRooms::AwaitUser => match authenticated(e) {
                Err(x) => (GetJoinedRooms::Done, fail(x)),
                Ok(user) => (GetJoinedRooms::AwaitRooms, Action::List(Listing::JoinedRooms { user: user.username })),
            },
            GetJoinedRooms::AwaitRooms => match e {
                Event::Rooms(Some(v)) => (GetJoinedRooms::Done, reply(Reply::Rooms(v))),
                _ => (GetJoinedRooms::Done, fail(ApiError::InternalServer)),
            },
            GetJoinedRooms::Done => (GetJoinedRooms::Done, fail(ApiError::InternalServer)),
        }
    }

    pub fn step(self, e: Event) -> (r: (GetJoinedRooms, Action<Outcome>))
        requires
            self.admits(&e),
        ensures
            r == self.next(e),
    {
        match self {
            GetJoinedRooms::AwaitUser => match authenticated_user(e) {
                Err(x) => (GetJoinedRooms::Done, Action::Finish(Err(x))),
                Ok(user) => (GetJoinedRooms::AwaitRooms, Action::List(Listing::JoinedRooms { user: user.username })),
            },
            GetJoinedRooms::AwaitRooms => match e {
                Event::Rooms(Some(v)) => (GetJoinedRooms::Done, Action::Finish(Ok(Reply::Rooms(v)))),
                _ => (GetJoinedRooms::Done, Action::Finish(Err(ApiError::InternalServer))),
            },
            GetJoinedRooms::Done => (GetJoinedRooms::Done, Action::Finish(Err(ApiError::InternalServer))),
        }
    }
}

pub fn get_joined_rooms() -> (r: (GetJoinedRooms, Action<Outcome>))
    ensures
        r == (GetJoinedRooms::AwaitUser, Action::<Outcome>::Authenticate),
{
    (GetJoinedRooms::AwaitUser, Action::Authenticate)
}

/// One page of the posts of a room, newest first, for its members only.
pub enum RoomPosts {
    AwaitUser { room_id: String, page: Option<String> },
    AwaitMembership { user: User, room_id: String, page: Option<String> },
    AwaitPosts { user: User },
    AwaitDescribed,
    Done,
}

impl RoomPosts {
    pub open spec fn admits(&self, e: &Event) -> bool {
        match self {
            RoomPosts::AwaitMembership { page, .. } => e matches Event::MembershipRow(Lookup::Found(_)) ==> page_fits(*page),
            _ => true,
        }
    }

    pub fn accepts(&self, e: &Event) -> (r: bool)
        ensures
            r == self.admits(e),
    {
        match self {
            RoomPosts::AwaitMembership { page, .. } => match e {
                Event::MembershipRow(Lookup::Found(_)) => page_in_range(page),
                _ => true,
            },
            _ => true,
        }
    }

    pub open spec fn next(self, e: Event) -> (RoomPosts, Action<Outcome>) {
        match self {
            RoomPosts::AwaitUser { room_id, page } => match authenticated(e) {
                Err(x) => (RoomPosts::Done, fail(x)),
                Ok(user) => (
                    RoomPosts::AwaitMembership { user, room_id, page },
                    Action::Fetch(Key::Membership { user: user.username, room: room_id }),
                ),
            },
            RoomPosts::AwaitMembership { user, room_id, page } => match e {
                Event::MembershipRow(Lookup::Found(_)) => match page_offset(page) {
                    Err(x) => (RoomPosts::Done, fail(x)),
                    Ok(offset) => (RoomPosts::AwaitPosts { user }, Action::List(Listing::RoomPosts { room: room_id, offset })),
                },
                Event::MembershipRow(_) => (RoomPosts::Done, fail(ApiError::RoomBoundaryViolation)),
                _ => (RoomPosts::Done, fail(ApiError::InternalServer)),
            },
            RoomPosts::AwaitPosts { user } => match e {
                Event::Posts(Some(posts)) => (RoomPosts::AwaitDescribed, Action::Describe { user, posts }),
                _ => (RoomPosts::Done, fail(ApiError::InternalServer)),
            },
            RoomPosts::AwaitDescribed => match e {
                Event::Described(v) => (RoomPosts::Done, reply(Reply::Posts(v))),
                _ => (RoomPosts::Done, fail(ApiError::InternalServer)),
            },
            RoomPosts::Done => (RoomPosts::Done, fail(ApiError::InternalServer)),
        }
    }

    pub fn step(self, e: Event) -> (r: (RoomPosts, Action<Outcome>))
        requires
            self.admits(&e),
        ensures
            r == self.next(e),
    {
        match self {
            RoomPosts::AwaitUser { room_id, page } => match authenticated_user(e) {
                Err(x) => (RoomPosts::Done, Action::Finish(Err(x))),
                Ok(user) => {
                    let key = Key::Membership { user: user.get_username(), room: room_id.clone() };
                    (RoomPosts::AwaitMembership { user, room_id, page }, Action::Fetch(key))
                },
            },
            RoomPosts::AwaitMembership { user, room_id, page } => match e {
                Event::MembershipRow(Lookup::Found(_)) => match read_page(&page) {
                    Err(x) => (RoomPosts::Done, Action::Finish(Err(x))),
                    Ok(offset) => (RoomPosts::AwaitPosts { user }, Action::List(Listing::RoomPosts { room: room_id, offset })),
                },
                Event::MembershipRow(_) => (RoomPosts::Done, Action::Finish(Err(ApiError::RoomBoundaryViolation))),
                _ => (RoomPosts::Done, Action::Finish(Err(ApiError::InternalServer))),
            },
            RoomPosts::AwaitPosts { user } => match e {
                Event::Posts(Some(posts)) => (RoomPosts::AwaitDescribed, Action::Describe { user, posts }),
                _ => (RoomPosts::Done, Action::Finish(Err(ApiError::InternalServer))),
            },
            RoomPosts::AwaitDescribed => match e {
                Event::Described(v) => (RoomPosts::Done, Action::Finish(Ok(Reply::Posts(v)))),
                _ => (RoomPosts::Done, Action::Finish(Err(ApiError::InternalServer))),
            },
            RoomPosts::Done => (RoomPosts::Done, Action::Finish(Err(ApiError::InternalServer))),
        }
    }
}

pub fn room_posts_query(room_id: String, page: Option<String>) -> (r: (RoomPosts, Action<Outcome>))
    ensures
        r == (RoomPosts::AwaitUser { room_id, page }, Action::<Outcome>::Authenticate),
{
    (RoomPosts::AwaitUser { room_id, page }, Action::Authenticate)
}

/// Only members read a room's posts.
pub proof fn law_room_posts_need_membership(user: User, room_id: String, page: Option<String>, e: Event)
    requires
        e matches Event::MembershipRow(l) && !(l is Found),
    ensures
        (RoomPosts::AwaitMembership { user, room_id, page }).next(e) == (
            RoomPosts::Done,
            fail(ApiError::RoomBoundaryViolation),
        ),
{
}

pub struct UpdateRoomNameData {
    pub room_id: String,
    pub new_name: String,
}

pub struct UpdateRoomDescriptionData {
    pub room_id: String,
    pub new_description: String,
}

pub struct UpdateRoomColorData {
    pub room_id: String,
    pub new_color: String,
}

/// A change to one of a room's fields.
pub enum RoomEdit {
    Name(String),
    Description(String),
    Color(String),
}

/// The length, in bytes, that a room's color has.
pub const ROOM_COLOR_LEN: usize = 6;

/// What is wrong with an edit, if anything: a name of at most 24 and a
/// description of at most 150 bytes, neither empty; a color of exactly 6 bytes.
pub open spec fn edit_error(edit: RoomEdit) -> Option<ApiError> {
    match edit {
        RoomEdit::Name(s) => if byte_len(s@) > MAX_ROOM_NAME_LEN {
            Some(ApiError::ContentTooLarge)
        } else if byte_len(s@) == 0 {
            Some(ApiError::EmptyContent)
        } else {
            None
        },
        RoomEdit::Description(s) => if byte_len(s@) > MAX_ROOM_DESCRIPTION_LEN {
            Some(ApiError::ContentTooLarge)
        } else if byte_len(s@) == 0 {
            Some(ApiError::EmptyContent)
        } else {
            None
        },
        RoomEdit::Color(s) => if byte_len(s@) != ROOM_COLOR_LEN {
            Some(ApiError::InvalidQuery)
        } else {
            None
        },
    }
}

fn check_edit(edit: &RoomEdit) -> (r: Option<ApiError>)
    ensures
        r == edit_error(*edit),
{
    match edit {
        RoomEdit::Name(s) => if s.as_str().len() > MAX_ROOM_NAME_LEN {
            Some(ApiError::ContentTooLarge)
        } else if s.as_str().len() == 0 {
            Some(ApiError::EmptyContent)
        } else {
            None
        },
        RoomEdit::Description(s) => if s.as_str().len() > MAX_ROOM_DESCRIPTION_LEN {
            Some(ApiError::ContentTooLarge)
        } else if s.as_str().len() == 0 {
            Some(ApiError::EmptyContent)
        } else {
            None
        },
        RoomEdit::Color(s) => if s.as_str().len() != ROOM_COLOR_LEN {
            Some(ApiError::InvalidQuery)
        } else {
            None
        },
    }
}

/// `room` with the edit applied.
pub open spec fn edited(room: Room, edit: RoomEdit) -> Room {
    match edit {
        RoomEdit::Name(s) => Room { name: s, ..room },
        RoomEdit::Description(s) => Room { description: s, ..room },
        RoomEdit::Color(s) => Room { color: s, ..room },
    }
}

/// Changes a field of a room that the requesting user owns. The new value is
/// checked before anything else.
pub enum EditRoom {
    AwaitUser { room_id: String, edit: RoomEdit },
    AwaitRoom { user: User, edit: RoomEdit },
    AwaitSave,
    Done,
}

impl EditRoom {
    pub open spec fn admits(&self, e: &Event) -> bool {
        true
    }

    pub fn accepts(&self, e: &Event) -> (r: bool)
        ensures
            r == self.admits(e),
    {
        true
    }

    pub open spec fn next(self, e: Event) -> (EditRoom, Action<Outcome>) {
        match self {
            EditRoom::AwaitUser { room_id, edit } => match authenticated(e) {
                Err(x) => (EditRoom::Done, fail(x)),
                Ok(user) => (EditRoom::AwaitRoom { user, edit }, Action::Fetch(Key::Room(room_id))),
            },
            EditRoom::AwaitRoom { user, edit } => match owned_room(e, user) {
                Err(x) => (EditRoom::Done, fail(x)),
                Ok(room) => (EditRoom::AwaitSave, Action::Write(Change::SaveRoom(edited(room, edit)))),
            },
            EditRoom::AwaitSave => match write_ok(e) {
                Err(x) => (EditRoom::Done, fail(x)),
                Ok(_) => (EditRoom::Done, reply(Reply::Empty)),
            },
            EditRoom::Done => (EditRoom::Done, fail(ApiError::InternalServer)),
        }
    }

    pub fn step(self, e: Event) -> (r: (EditRoom, Action<Outcome>))
        requires
            self.admits(&e),
        ensures
            r == self.next(e),
    {
        match self {
            EditRoom::AwaitUser { room_id, edit } => match authenticated_user(e) {
                Err(x) => (EditRoom::Done, Action::Finish(Err(x))),
                Ok(user) => (EditRoom::AwaitRoom { user, edit }, Action::Fetch(Key::Room(room_id))),
            },
            EditRoom::AwaitRoom { user, edit } => match room_owned_by(e, &user) {
                Err(x) => (EditRoom::Done, Action::Finish(Err(x))),
                Ok(mut room) => {
                    match edit {
                        RoomEdit::Name(s) => room.set_name_unchecked(s),
                        RoomEdit::Description(s) => room.set_description_unchecked(s),
                        RoomEdit::Color(s) => room.set_color_unchecked(s),
                    }
                    (EditRoom::AwaitSave, Action::Write(Change::SaveRoom(room)))
                },
            },
            EditRoom::AwaitSave => match written(e) {
                Err(x) => (EditRoom::Done, Action::Finish(Err(x))),
                Ok(_) => (EditRoom::Done, Action::Finish(Ok(Reply::Empty))),
            },
            EditRoom::Done => (EditRoom::Done, Action::Finish(Err(ApiError::InternalServer))),
        }
    }
}

/// Starts an edit: refused at once when the new value is not acceptable.
pub fn edit_room(room_id: String, edit: RoomEdit) -> (r: (EditRoom, Action<Outcome>))
    ensures
        match edit_error(edit) {
            Some(x) => r == (EditRoom::Done, fail(x)),
            None => r == (EditRoom::AwaitUser { room_id, edit }, Action::<Outcome>::Authenticate),
        },
{
    match check_edit(&edit) {
        Some(x) => (EditRoom::Done, Action::Finish(Err(x))),
        None => (EditRoom::AwaitUser { room_id, edit }, Action::Authenticate),
    }
}

pub fn update_room_name(data: UpdateRoomNameData) -> (r: (EditRoom, Action<Outcome>))
    ensures
        match edit_error(RoomEdit::Name(data.new_name)) {
            Some(x) => r == (EditRoom::Done, fail(x)),
            None => r == (EditRoom::AwaitUser { room_id: data.room_id, edit: RoomEdit::Name(data.new_name) }, Action::<Outcome>::Authenticate),
        },
{
    edit_room(data.room_id, RoomEdit::Name(data.new_name))
}

pub fn update_room_description(data: UpdateRoomDescriptionData) -> (r: (EditRoom, Action<Outcome>))
    ensures
        match edit_error(RoomEdit::Description(data.new_description)) {
            Some(x) => r == (EditRoom::Done, fail(x)),
            None => r == (EditRoom::AwaitUser {
                room_id: data.room_id,
                edit: RoomEdit::Description(data.new_description),
            }, Action::<Outcome>::Authenticate),
        },
{
    edit_room(data.room_id, RoomEdit::Description(data.new_description))
}

pub fn update_room_color(data: UpdateRoomColorData) -> (r: (EditRoom, Action<Outcome>))
    ensures
        match edit_error(RoomEdit::Color(data.new_color)) {
            Some(x) => r == (EditRoom::Done, fail(x)),
            None => r == (EditRoom::AwaitUser { room_id: data.room_id, edit: RoomEdit::Color(data.new_color) }, Action::<Outcome>::Authenticate),
        },
{
    edit_room(data.room_id, RoomEdit::Color(data.new_color))
}

/// Only a room's owner changes it: for anyone else the edit is refused and
/// nothing is written.
pub proof fn law_only_owner_edits_room(user: User, edit: RoomEdit, room: Room)
    requires
        room.owner@ != user.username@,
    ensures
        (EditRoom::AwaitRoom { user, edit }).next(Event::RoomRow(Lookup::Found(room))) == (
            EditRoom::Done,
            fail(ApiError::InsufficientPermissions),
        ),
{
}

/// Deletes a room that the requesting user owns; its memberships and posts
/// are deleted in the background.
pub enum DeleteRoom {
    AwaitUser { room_id: String },
    AwaitRoom { user: User },
    AwaitDelete { room_id: String },
    AwaitSpawn,
    Done,
}

impl DeleteRoom {
    pub open spec fn admits(&self, e: &Event) -> bool {
        true
    }

    pub fn accepts(&self, e: &Event) -> (r: bool)
        ensures
            r == self.admits(e),
    {
        true
    }

    pub open spec fn next(self, e: Event) -> (DeleteRoom, Action<Outcome>) {
        match self {
            DeleteRoom::AwaitUser { room_id } => match authenticated(e) {
                Err(x) => (DeleteRoom::Done, fail(x)),
                Ok(user) => (DeleteRoom::AwaitRoom { user }, Action::Fetch(Key::Room(room_id))),
            },
            DeleteRoom::AwaitRoom { user } => match owned_room(e, user) {
                Err(x) => (DeleteRoom::Done, fail(x)),
                Ok(room) => (DeleteRoom::AwaitDelete { room_id: room.id }, Action::Write(Change::DeleteRoom(room.id))),
            },
            DeleteRoom::AwaitDelete { room_id } => match write_ok(e) {
                Err(x) => (DeleteRoom::Done, fail(x)),
                Ok(_) => (DeleteRoom::AwaitSpawn, Action::Spawn(Task::ClearRoom(room_id))),
            },
            DeleteRoom::AwaitSpawn => (DeleteRoom::Done, reply(Reply::Empty)),
            DeleteRoom::Done => (DeleteRoom::Done, fail(ApiError::InternalServer)),
        }
    }

    pub fn step(self, e: Event) -> (r: (DeleteRoom, Action<Outcome>))
        requires
            self.admits(&e),
        ensures
            r == self.next(e),
    {
        match self {
            DeleteRoom::AwaitUser { room_id } => match authenticated_user(e) {
                Err(x) => (DeleteRoom::Done, Action::Finish(Err(x))),
                Ok(user) => (DeleteRoom::AwaitRoom { user }, Action::Fetch(Key::Room(room_id))),
            },
            DeleteRoom::AwaitRoom { user } => match room_owned_by(e, &user) {
                Err(x) => (DeleteRoom::Done, Action::Finish(Err(x))),
                Ok(room) => {
                    let id = room.get_id();
                    (DeleteRoom::AwaitDelete { room_id: room.id }, Action::Write(Change::DeleteRoom(id)))
                },
            },
            DeleteRoom::AwaitDelete { room_id } => match written(e) {
                Err(x) => (DeleteRoom::Done, Action::Finish(Err(x))),
                Ok(_) => (DeleteRoom::AwaitSpawn, Action::Spawn(Task::ClearRoom(room_id))),
            },
            DeleteRoom::AwaitSpawn => (DeleteRoom::Done, Action::Finish(Ok(Reply::Empty))),
            DeleteRoom::Done => (DeleteRoom::Done, Action::Finish(Err(ApiError::InternalServer))),
        }
    }
}

pub fn delete_room(room_id: String) -> (r: (DeleteRoom, Action<Outcome>))
    ensures
        r == (DeleteRoom::AwaitUser { room_id }, Action::<Outcome>::Authenticate),
{
    (DeleteRoom::AwaitUser { room_id }, Action::Authenticate)
}

/// Makes the requesting user leave a room; the owner cannot leave.
pub enum LeaveRoom {
    AwaitUser { room_id: String },
    AwaitRoom { user: User, room_id: String },
    AwaitDelete,
    Done,
}

impl LeaveRoom {
    pub open spec fn admits(&self, e: &Event) -> bool {
        true
    }

    pub fn accepts(&self, e: &Event) -> (r: bool)
        ensures
            r == self.admits(e),
    {
        true
    }

    pub open spec fn next(self, e: Event) -> (LeaveRoom, Action<Outcome>) {
        match self {
            LeaveRoom::AwaitUser { room_id } => match authenticated(e) {
                Err(x) => (LeaveRoom::Done, fail(x)),
                Ok(user) => (LeaveRoom::AwaitRoom { user, room_id }, Action::Fetch(Key::Room(room_id))),
            },
            LeaveRoom::AwaitRoom { user, room_id } => match found_room(e, ApiError::RoomDoesNotExist) {
                Err(x) => (LeaveRoom::Done, fail(x)),
                Ok(room) => if room.owner@ == user.username@ {
                    (LeaveRoom::Done, fail(ApiError::InvalidQuery))
                } else {
                    (LeaveRoom::AwaitDelete, Action::Write(Change::DeleteMembership { user: user.username, room: room_id }))
                },
            },
            LeaveRoom::AwaitDelete => match write_ok(e) {
                Err(x) => (LeaveRoom::Done, fail(x)),
                Ok(_) => (LeaveRoom::Done, reply(Reply::Empty)),
            },
            LeaveRoom::Done => (LeaveRoom::Done, fail(ApiError::InternalServer)),
        }
    }

    pub fn step(self, e: Event) -> (r: (LeaveRoom, Action<Outcome>))
        requires
            self.admits(&e),
        ensures
            r == self.next(e),
    {
        match self {
            LeaveRoom::AwaitUser { room_id } => match authenticated_user(e) {
                Err(x) => (LeaveRoom::Done, Action::Finish(Err(x))),
                Ok(user) => {
                    let id = room_id.clone();
                    (LeaveRoom::AwaitRoom { user, room_id }, Action::Fetch(Key::Room(id)))
                },
            },
            LeaveRoom::AwaitRoom { user, room_id } => match room_found(e, ApiError::RoomDoesNotExist) {
                Err(x) => (LeaveRoom::Done, Action::Finish(Err(x))),
                Ok(room) => if room.owner == user.username {
                    (LeaveRoom::Done, Action::Finish(Err(ApiError::InvalidQuery)))
                } else {
                    (LeaveRoom::AwaitDelete, Action::Write(Change::DeleteMembership { user: user.username, room: room_id }))
                },
            },
            LeaveRoom::AwaitDelete => match written(e) {
                Err(x) => (LeaveRoom::Done, Action::Finish(Err(x))),
                Ok(_) => (LeaveRoom::Done, Action::Finish(Ok(Reply::Empty))),
            },
            LeaveRoom::Done => (LeaveRoom::Done, Action::Finish(Err(ApiError::InternalServer))),
        }
    }
}

pub fn leave_room(room_id: String) -> (r: (LeaveRoom, Action<Outcome>))
    ensures
        r == (LeaveRoom::AwaitUser { room_id }, Action::<Outcome>::Authenticate),
{
    (LeaveRoom::AwaitUser { room_id }, Action::Authenticate)
}

/// A room's owner cannot leave it.
pub proof fn law_owner_cannot_leave(user: User, room_id: String, room: Room)
    requires
        room.owner@ == user.username@,
    ensures
        (LeaveRoom::AwaitRoom { user, room_id }).next(Event::RoomRow(Lookup::Found(room))) == (
            LeaveRoom::Done,
            fail(ApiError::InvalidQuery),
        ),
{
}

/// Which members of a room to list: a page of them, or those whose username
/// matches a search term.
pub enum MemberQuery {
    Page(Option<String>),
    Search(Option<String>),
}

/// Lists members of a room, as `JoinedUserResponse`s.
pub enum RoomMembers {
    AwaitUser { room_id: String, query: MemberQuery },
    AwaitUsers,
    Done,
}

impl RoomMembers {
    pub open spec fn admits(&self, e: &Event) -> bool {
        match self {
            RoomMembers::AwaitUser { query: MemberQuery::Page(page), .. } => e matches Event::Authenticated(Some(_))
                ==> page_fits(*page),
            _ => true,
        }
    }

    pub fn accepts(&self, e: &Event) -> (r: bool)
        ensures
            r == self.admits(e),
    {
        match self {
            RoomMembers::AwaitUser { query: MemberQuery::Page(page), .. } => match e {
                Event::Authenticated(Some(_)) => page_in_range(page),
                _ => true,
            },
            _ => true,
        }
    }

    pub open spec fn steps_to(self, e: Event, r: (RoomMembers, Action<Outcome>)) -> bool {
        match self {
            RoomMembers::AwaitUser { room_id, query } => match authenticated(e) {
                Err(x) => r == (RoomMembers::Done, fail(x)),
                Ok(user) => match query {
                    MemberQuery::Page(page) => match page_offset(page) {
                        Err(x) => r == (RoomMembers::Done, fail(x)),
                        Ok(offset) => r == (RoomMembers::AwaitUsers, Action::<Outcome>::List(Listing::RoomMembers { room: room_id, offset })),
                    },
                    MemberQuery::Search(term) => match term {
                        None => r == (RoomMembers::Done, fail(ApiError::InvalidQuery)),
                        Some(t) => r == (RoomMembers::AwaitUsers, Action::<Outcome>::List(Listing::RoomMemberSearch { room: room_id, term: t })),
                    },
                },
            },
            RoomMembers::AwaitUsers => match e {
                Event::Users(Some(v)) => r.0 == RoomMembers::Done && (r.1 matches Action::Finish(Ok(Reply::Members(m)))
                    && m@ == v@.map_values(|u: User| joined_user_of(u))),
                _ => r == (RoomMembers::Done, fail(ApiError::InternalServer)),
            },
            RoomMembers::Done => r == (RoomMembers::Done, fail(ApiError::InternalServer)),
        }
    }

    pub fn step(self, e: Event) -> (r: (RoomMembers, Action<Outcome>))
        requires
            self.admits(&e),
        ensures
            self.steps_to(e, r),
    {
        match self {
            RoomMembers::AwaitUser { room_id, query } => match authenticated_user(e) {
                Err(x) => (RoomMembers::Done, Action::Finish(Err(x))),
                Ok(_) => match query {
                    MemberQuery::Page(page) => match read_page(&page) {
                        Err(x) => (RoomMembers::Done, Action::Finish(Err(x))),
                        Ok(offset) => (RoomMembers::AwaitUsers, Action::List(Listing::RoomMembers { room: room_id, offset })),
                    },
                    MemberQuery::Search(term) => match term {
                        None => (RoomMembers::Done, Action::Finish(Err(ApiError::InvalidQuery))),
                        Some(t) => (RoomMembers::AwaitUsers, Action::List(Listing::RoomMemberSearch { room: room_id, term: t })),
                    },
                },
            },
            RoomMembers::AwaitUsers => match e {
                Event::Users(Some(v)) => (RoomMembers::Done, Action::Finish(Ok(Reply::Members(joined_users(v))))),
                _ => (RoomMembers::Done, Action::Finish(Err(ApiError::InternalServer))),
            },
            RoomMembers::Done => (RoomMembers::Done, Action::Finish(Err(ApiError::InternalServer))),
        }
    }
}

/// One page of a room's members; any authenticated user may ask.
pub fn fetch_joined_users(page: Option<String>, room_id: String) -> (r: (RoomMembers, Action<Outcome>))
    ensures
        r == (RoomMembers::AwaitUser { room_id, query: MemberQuery::Page(page) }, Action::<Outcome>::Authenticate),
{
    (RoomMembers::AwaitUser { room_id, query: MemberQuery::Page(page) }, Action::Authenticate)
}

/// The members of a room whose username matches the `query` parameter.
pub fn search_for_room_member(query: Option<String>, room_id: String) -> (r: (RoomMembers, Action<Outcome>))
    ensures
        r == (RoomMembers::AwaitUser { room_id, query: MemberQuery::Search(query) }, Action::<Outcome>::Authenticate),
{
    (RoomMembers::AwaitUser { room_id, query: MemberQuery::Search(query) }, Action::Authenticate)
}

pub struct AddUserToRoomData {
    pub username: String,
}

/// What a room's owner does to the room's members and bans.
pub enum AdminOp {
    /// Removes a user's membership.
    Kick(String),
    /// Removes a user's membership and bans them.
    Ban(String),
    /// Lifts a user's ban.
    Unban(String),
    /// Makes a user a member (at the given time), unless they are banned.
    Add { username: String, now: i64 },
    /// Lists a page of the banned users.
    ListBanned(Option<String>),
    /// Lists the banned users whose username matches a search term.
    SearchBanned(Option<String>),
}

/// An operation that only a room's owner may perform. Kicking or banning
/// oneself is refused before the room is read.
pub enum RoomAdmin {
    AwaitUser { room_id: String, op: AdminOp },
    AwaitRoom { user: User, room_id: String, op: AdminOp },
    AwaitBanned { ban_room: String, room_id: String, target: String },
    AwaitBanWrite { ban: Ban },
    AwaitBanRecord { room: Room, target: String, now: i64 },
    AwaitAdded { room: Room, now: i64 },
    AwaitLastWrite,
    AwaitUsers,
    Done,
}

/// The operation concerns the requesting user themself in a way that is
/// refused: kicking or banning oneself.
pub open spec fn targets_self(op: AdminOp, user: User) -> bool {
    match op {
        AdminOp::Kick(t) => t@ == user.username@,
        AdminOp::Ban(t) => t@ == user.username@,
        _ => false,
    }
}

fn targets_self_exec(op: &AdminOp, user: &User) -> (r: bool)
    ensures
        r == targets_self(*op, *user),
{
    match op {
        AdminOp::Kick(t) => *t == user.username,
        AdminOp::Ban(t) => *t == user.username,
        _ => false,
    }
}

impl RoomAdmin {
    /// Once the room is known to be the requesting user's, the offset of the
    /// page of banned users fits in an `i64`.
    pub open spec fn admits(&self, e: &Event) -> bool {
        match self {
            RoomAdmin::AwaitRoom { user, op: AdminOp::ListBanned(page), .. } => owned_room(*e, *user) is Ok ==> page_fits(
                *page,
            ),
            _ => true,
        }
    }

    pub fn accepts(&self, e: &Event) -> (r: bool)
        ensures
            r == self.admits(e),
    {
        match self {
            RoomAdmin::AwaitRoom { user, op: AdminOp::ListBanned(page), .. } => match e {
                Event::RoomRow(Lookup::Found(room)) => if room.owner == user.username {
                    page_in_range(page)
                } else {
                    true
                },
                _ => true,
            },
            _ => true,
        }
    }

    /// What the owner's operation does once the room is known to be theirs.
    pub open spec fn on_owned_room(room: Room, room_id: String, op: AdminOp) -> (RoomAdmin, Action<Outcome>) {
        match op {
            AdminOp::Kick(t) => (RoomAdmin::AwaitLastWrite, Action::Write(Change::DeleteMembership { user: t, room: room_id })),
            AdminOp::Ban(t) => (RoomAdmin::AwaitBanned { ban_room: room.id, room_id, target: t }, Action::Fetch(Key::User(t))),
            AdminOp::Unban(t) => (RoomAdmin::AwaitLastWrite, Action::Write(Change::DeleteBan { user: t, room: room_id })),
            AdminOp::Add { username, now } => (
                RoomAdmin::AwaitBanRecord { room, target: username, now },
                Action::Fetch(Key::Ban { user: username, room: room_id }),
            ),
            AdminOp::ListBanned(page) => match page_offset(page) {
                Err(x) => (RoomAdmin::Done, fail(x)),
                Ok(offset) => (RoomAdmin::AwaitUsers, Action::List(Listing::BannedUsers { room: room_id, offset })),
            },
            AdminOp::SearchBanned(term) => match term {
                None => (RoomAdmin::Done, fail(ApiError::InvalidQuery)),
                Some(t) => (RoomAdmin::AwaitUsers, Action::List(Listing::BannedUserSearch { room: room_id, term: t })),
            },
        }
    }

    pub open spec fn steps_to(self, e: Event, r: (RoomAdmin, Action<Outcome>)) -> bool {
        match self {
            RoomAdmin::AwaitUser { room_id, op } => match authenticated(e) {
                Err(x) => r == (RoomAdmin::Done, fail(x)),
                Ok(user) => if targets_self(op, user) {
                    r == (RoomAdmin::Done, fail(ApiError::InvalidQuery))
                } else {
                    r == (RoomAdmin::AwaitRoom { user, room_id, op }, Action::<Outcome>::Fetch(Key::Room(room_id)))
                },
            },
            RoomAdmin::AwaitRoom { user, room_id, op } => match owned_room(e, user) {
                Err(x) => r == (RoomAdmin::Done, fail(x)),
                Ok(room) => r == Self::on_owned_room(room, room_id, op),
            },
            RoomAdmin::AwaitBanned { ban_room, room_id, target } => match found_user(e, ApiError::UserDoesNotExist) {
                Err(x) => r == (RoomAdmin::Done, fail(x)),
                Ok(banned) => r == (
                    RoomAdmin::AwaitBanWrite { ban: Ban { user: banned.username, room: ban_room } },
                    Action::<Outcome>::Write(Change::DeleteMembership { user: target, room: room_id }),
                ),
            },
            RoomAdmin::AwaitBanWrite { ban } => match write_ok(e) {
                Err(x) => r == (RoomAdmin::Done, fail(x)),
                Ok(_) => r == (RoomAdmin::AwaitLastWrite, Action::<Outcome>::Write(Change::ReplaceBan(ban))),
            },
            RoomAdmin::AwaitBanRecord { room, target, now } => match e {
                Event::BanRow(Lookup::Found(_)) => r == (RoomAdmin::Done, fail(ApiError::UserIsBanned)),
                Event::BanRow(Lookup::Missing) => r == (RoomAdmin::AwaitAdded { room, now }, Action::<Outcome>::Fetch(Key::User(target))),
                _ => r == (RoomAdmin::Done, fail(ApiError::InternalServer)),
            },
            RoomAdmin::AwaitAdded { room, now } => match found_user(e, ApiError::UserDoesNotExist) {
                Err(x) => r == (RoomAdmin::Done, fail(x)),
                Ok(u) => r == (
                    RoomAdmin::AwaitLastWrite,
                    Action::<Outcome>::Write(Change::ReplaceMembership(Membership { user: u.username, room: room.id, date_joined: now })),
                ),
            },
            RoomAdmin::AwaitLastWrite => match write_ok(e) {
                Err(x) => r == (RoomAdmin::Done, fail(x)),
                Ok(_) => r == (RoomAdmin::Done, reply(Reply::Empty)),
            },
            RoomAdmin::AwaitUsers => match e {
                Event::Users(Some(v)) => r.0 == RoomAdmin::Done && (r.1 matches Action::Finish(Ok(Reply::Members(m)))
                    && m@ == v@.map_values(|u: User| joined_user_of(u))),
                _ => r == (RoomAdmin::Done, fail(ApiError::InternalServer)),
            },
            RoomAdmin::Done => r == (RoomAdmin::Done, fail(ApiError::InternalServer)),
        }
    }

    fn on_owned_room_exec(room: Room, room_id: String, op: AdminOp) -> (r: (RoomAdmin, Action<Outcome>))
        requires
            op matches AdminOp::ListBanned(page) ==> page_fits(page),
        ensures
            r == Self::on_owned_room(room, room_id, op),
    {
        match op {
            AdminOp::Kick(t) => (RoomAdmin::AwaitLastWrite, Action::Write(Change::DeleteMembership { user: t, room: room_id })),
            AdminOp::Ban(t) => {
                let name = t.clone();
                let ban_room = room.get_id();
                (RoomAdmin::AwaitBanned { ban_room, room_id, target: t }, Action::Fetch(Key::User(name)))
            },
            AdminOp::Unban(t) => (RoomAdmin::AwaitLastWrite, Action::Write(Change::DeleteBan { user: t, room: room_id })),
            AdminOp::Add { username, now } => {
                let name = username.clone();
                (RoomAdmin::AwaitBanRecord { room, target: username, now }, Action::Fetch(Key::Ban { user: name, room: room_id }))
            },
            AdminOp::ListBanned(page) => match read_page(&page) {
                Err(x) => (RoomAdmin::Done, Action::Finish(Err(x))),
                Ok(offset) => (RoomAdmin::AwaitUsers, Action::List(Listing::BannedUsers { room: room_id, offset })),
            },
            AdminOp::SearchBanned(term) => match term {
                None => (RoomAdmin::Done, Action::Finish(Err(ApiError::InvalidQuery))),
                Some(t) => (RoomAdmin::AwaitUsers, Action::List(Listing::BannedUserSearch { room: room_id, term: t })),
            },
        }
    }

    pub fn step(self, e: Event) -> (r: (RoomAdmin, Action<Outcome>))
        requires
            self.admits(&e),
        ensures
            self.steps_to(e, r),
    {
        match self {
            RoomAdmin::AwaitUser { room_id, op } => match authenticated_user(e) {
                Err(x) => (RoomAdmin::Done, Action::Finish(Err(x))),
                Ok(user) => if targets_self_exec(&op, &user) {
                    (RoomAdmin::Done, Action::Finish(Err(ApiError::InvalidQuery)))
                } else {
                    let id = room_id.clone();
                    (RoomAdmin::AwaitRoom { user, room_id, op }, Action::Fetch(Key::Room(id)))
                },
            },
            RoomAdmin::AwaitRoom { user, room_id, op } => match room_owned_by(e, &user) {
                Err(x) => (RoomAdmin::Done, Action::Finish(Err(x))),
                Ok(room) => Self::on_owned_room_exec(room, room_id, op),
            },
            RoomAdmin::AwaitBanned { ban_room, room_id, target } => match user_found(e, ApiError::UserDoesNotExist) {
                Err(x) => (RoomAdmin::Done, Action::Finish(Err(x))),
                Ok(banned) => (
                    RoomAdmin::AwaitBanWrite { ban: Ban { user: banned.username, room: ban_room } },
                    Action::Write(Change::DeleteMembership { user: target, room: room_id }),
                ),
            },
            RoomAdmin::AwaitBanWrite { ban } => match written(e) {
                Err(x) => (RoomAdmin::Done, Action::Finish(Err(x))),
                Ok(_) => (RoomAdmin::AwaitLastWrite, Action::Write(Change::ReplaceBan(ban))),
            },
            RoomAdmin::AwaitBanRecord { room, target, now } => match e {
                Event::BanRow(Lookup::Found(_)) => (RoomAdmin::Done, Action::Finish(Err(ApiError::UserIsBanned))),
                Event::BanRow(Lookup::Missing) => (RoomAdmin::AwaitAdded { room, now }, Action::Fetch(Key::User(target))),
                _ => (RoomAdmin::Done, Action::Finish(Err(ApiError::InternalServer))),
            },
            RoomAdmin::AwaitAdded { room, now } => match user_found(e, ApiError::UserDoesNotExist) {
                Err(x) => (RoomAdmin::Done, Action::Finish(Err(x))),
                Ok(u) => (
                    RoomAdmin::AwaitLastWrite,
                    Action::Write(Change::ReplaceMembership(Membership::new(&u, &room, now))),
                ),
            },
            RoomAdmin::AwaitLastWrite => match written(e) {
                Err(x) => (RoomAdmin::Done, Action::Finish(Err(x))),
                Ok(_) => (RoomAdmin::Done, Action::Finish(Ok(Reply::Empty))),
            },
            RoomAdmin::AwaitUsers => match e {
                Event::Users(Some(v)) => (RoomAdmin::Done, Action::Finish(Ok(Reply::Members(joined_users(v))))),
                _ => (RoomAdmin::Done, Action::Finish(Err(ApiError::InternalServer))),
            },
            RoomAdmin::Done => (RoomAdmin::Done, Action::Finish(Err(ApiError::InternalServer))),
        }
    }
}

pub fn kick_user_from_room(room_id: String, username: String) -> (r: (RoomAdmin, Action<Outcome>))
    ensures
        r == (RoomAdmin::AwaitUser { room_id, op: AdminOp::Kick(username) }, Action::<Outcome>::Authenticate),
{
    (RoomAdmin::AwaitUser { room_id, op: AdminOp::Kick(username) }, Action::Authenticate)
}

pub fn ban_user_from_room(room_id: String, username: String) -> (r: (RoomAdmin, Action<Outcome>))
    ensures
        r == (RoomAdmin::AwaitUser { room_id, op: AdminOp::Ban(username) }, Action::<Outcome>::Authenticate),
{
    (RoomAdmin::AwaitUser { room_id, op: AdminOp::Ban(username) }, Action::Authenticate)
}

pub fn unban_user_from_room(room_id: String, username: String) -> (r: (RoomAdmin, Action<Outcome>))
    ensures
        r == (RoomAdmin::AwaitUser { room_id, op: AdminOp::Unban(username) }, Action::<Outcome>::Authenticate),
{
    (RoomAdmin::AwaitUser { room_id, op: AdminOp::Unban(username) }, Action::Authenticate)
}

pub fn fetch_banned_users(page: Option<String>, room_id: String) -> (r: (RoomAdmin, Action<Outcome>))
    ensures
        r == (RoomAdmin::AwaitUser { room_id, op: AdminOp::ListBanned(page) }, Action::<Outcome>::Authenticate),
{
    (RoomAdmin::AwaitUser { room_id, op: AdminOp::ListBanned(page) }, Action::Authenticate)
}

pub fn search_for_banned_user(query: Option<String>, room_id: String) -> (r: (RoomAdmin, Action<Outcome>))
    ensures
        r == (RoomAdmin::AwaitUser { room_id, op: AdminOp::SearchBanned(query) }, Action::<Outcome>::Authenticate),
{
    (RoomAdmin::AwaitUser { room_id, op: AdminOp::SearchBanned(query) }, Action::Authenticate)
}

/// Starts adding a user to a room at time `now`.
pub fn add_user_to_room(room_id: String, data: AddUserToRoomData, now: i64) -> (r: (RoomAdmin, Action<Outcome>))
    ensures
        r == (RoomAdmin::AwaitUser { room_id, op: AdminOp::Add { username: data.username, now } }, Action::<Outcome>::Authenticate),
{
    (RoomAdmin::AwaitUser { room_id, op: AdminOp::Add { username: data.username, now } }, Action::Authenticate)
}

/// Only a room's owner administers it: for anyone else every operation is
/// refused and nothing is written.
pub proof fn law_only_owner_administers_room(user: User, room_id: String, op: AdminOp, room: Room, r: (RoomAdmin, Action<Outcome>))
    requires
        room.owner@ != user.username@,
        (RoomAdmin::AwaitRoom { user, room_id, op }).steps_to(Event::RoomRow(Lookup::Found(room)), r),
    ensures
        r == (RoomAdmin::Done, fail(ApiError::InsufficientPermissions)),
{
}

/// A banned user is not let back in by being added: the owner is told that
/// the user is banned, and nothing is written.
pub proof fn law_banned_user_is_not_added(room: Room, target: String, now: i64, ban: Ban, r: (RoomAdmin, Action<Outcome>))
    requires
        (RoomAdmin::AwaitBanRecord { room, target, now }).steps_to(Event::BanRow(Lookup::Found(ban)), r),
    ensures
        r == (RoomAdmin::Done, fail(ApiError::UserIsBanned)),
{
}

/// Banning removes the banned user's membership before recording the ban.
pub proof fn law_ban_removes_membership(ban_room: String, room_id: String, target: String, banned: User, r: (RoomAdmin, Action<Outcome>))
    requires
        (RoomAdmin::AwaitBanned { ban_room, room_id, target }).steps_to(Event::UserRow(Lookup::Found(banned)), r),
    ensures
        r.1 == Action::<Outcome>::Write(Change::DeleteMembership { user: target, room: room_id }),
        r.0 == (RoomAdmin::AwaitBanWrite { ban: Ban { user: banned.username, room: ban_room } }),
{
}

/// The owner cannot kick or ban themself.
pub proof fn law_owner_cannot_expel_self(room_id: String, op: AdminOp, user: User, r: (RoomAdmin, Action<Outcome>))
    requires
        targets_self(op, user),
        (RoomAdmin::AwaitUser { room_id, op }).steps_to(Event::Authenticated(Some(user)), r),
    ensures
        r == (RoomAdmin::Done, fail(ApiError::InvalidQuery)),
{
}

/// For the owner of a room, unbanning `t` deletes exactly the ban of `t` in
/// that room, kicking `t` deletes exactly `t`'s membership of it, and both
/// answer with success once the write succeeds.
pub proof fn law_owner_unbans_and_kicks(
    user: User,
    room_id: String,
    room: Room,
    t: String,
    unban: bool,
    r: (RoomAdmin, Action<Outcome>),
    r2: (RoomAdmin, Action<Outcome>),
)
    requires
        room.owner@ == user.username@,
        (RoomAdmin::AwaitRoom { user, room_id, op: if unban { AdminOp::Unban(t) } else { AdminOp::Kick(t) } }).steps_to(
            Event::RoomRow(Lookup::Found(room)),
            r,
        ),
        r.0.steps_to(Event::Written(true), r2),
    ensures
        unban ==> r.1 == Action::<Outcome>::Write(Change::DeleteBan { user: t, room: room_id }),
        !unban ==> r.1 == Action::<Outcome>::Write(Change::DeleteMembership { user: t, room: room_id }),
        r2.1 == reply(Reply::Empty),
{
}

/// For the owner of a room, adding `t` first reads whether `t` is banned from
/// that room; if not, and `t` exists, `t` becomes a member from `now`.
pub proof fn law_owner_adds_unbanned_user(
    user: User,
    room_id: String,
    room: Room,
    t: String,
    now: i64,
    found: User,
    r: (RoomAdmin, Action<Outcome>),
    r2: (RoomAdmin, Action<Outcome>),
    r3: (RoomAdmin, Action<Outcome>),
)
    requires
        room.owner@ == user.username@,
        (RoomAdmin::AwaitRoom { user, room_id, op: AdminOp::Add { username: t, now } }).steps_to(
            Event::RoomRow(Lookup::Found(room)),
            r,
        ),
        r.0.steps_to(Event::BanRow(Lookup::Missing), r2),
        r2.0.steps_to(Event::UserRow(Lookup::Found(found)), r3),
    ensures
        r.1 == Action::<Outcome>::Fetch(Key::Ban { user: t, room: room_id }),
        r2.1 == Action::<Outcome>::Fetch(Key::User(t)),
        r3.1 == Action::<Outcome>::Write(
            Change::ReplaceMembership(Membership { user: found.username, room: room.id, date_joined: now }),
        ),
{
}

/// An owner's edit saves the room read by the requested id with the one field
/// replaced: a new name, description or color, and every other field kept.
pub proof fn law_owner_edit_replaces_one_field(room_id: String, edit: RoomEdit, user: User, room: Room)
    requires
        room.owner@ == user.username@,
    ensures
        ({
            let (s, a) = (EditRoom::AwaitUser { room_id, edit }).next(Event::Authenticated(Some(user)));
            let b = s.next(Event::RoomRow(Lookup::Found(room))).1;
            &&& a == Action::<Outcome>::Fetch(Key::Room(room_id))
            &&& b matches Action::Write(Change::SaveRoom(saved))
            &&& saved.id == room.id && saved.owner == room.owner && saved.is_private == room.is_private
            &&& saved.date_created == room.date_created
            &&& saved.name == (match edit {
                RoomEdit::Name(n) => n,
                _ => room.name,
            })
            &&& saved.description == (match edit {
                RoomEdit::Description(d) => d,
                _ => room.description,
            })
            &&& saved.color == (match edit {
                RoomEdit::Color(c) => c,
                _ => room.color,
            })
        }),
{
}

/// Only a room's owner deletes it: the room read by the requested id is
/// deleted and its memberships and posts are cleared in the background; for
/// anyone else nothing is written.
pub proof fn law_owner_deletes_room(room_id: String, user: User, room: Room)
    ensures
        ({
            let (s, a) = (DeleteRoom::AwaitUser { room_id }).next(Event::Authenticated(Some(user)));
            let (s2, b) = s.next(Event::RoomRow(Lookup::Found(room)));
            &&& a == Action::<Outcome>::Fetch(Key::Room(room_id))
            &&& room.owner@ == user.username@ ==> b == Action::<Outcome>::Write(Change::DeleteRoom(room.id))
                && s2.next(Event::Written(true)).1 == Action::<Outcome>::Spawn(Task::ClearRoom(room.id))
            &&& room.owner@ != user.username@ ==> b == fail(ApiError::InsufficientPermissions)
        }),
{
}

/// A member other than the owner leaves a room by deleting their own
/// membership of the requested room.
pub proof fn law_member_leaves_room(room_id: String, user: User, room: Room)
    requires
        room.owner@ != user.username@,
    ensures
        ({
            let (s, a) = (LeaveRoom::AwaitUser { room_id }).next(Event::Authenticated(Some(user)));
            &&& a == Action::<Outcome>::Fetch(Key::Room(room_id))
            &&& s.next(Event::RoomRow(Lookup::Found(room))).1 == Action::<Outcome>::Write(
                Change::DeleteMembership { user: user.username, room: room_id },
            )
        }),
{
}

/// A member sees the posts of the requested room, from the page's first row.
pub proof fn law_member_sees_room_posts(room_id: String, page: Option<String>, user: User, m: Membership)
    requires
        page_fits(page),
        page_offset(page) is Ok,
    ensures
        ({
            let (s, a) = (RoomPosts::AwaitUser { room_id, page }).next(Event::Authenticated(Some(user)));
            &&& a == Action::<Outcome>::Fetch(Key::Membership { user: user.username, room: room_id })
            &&& s.next(Event::MembershipRow(Lookup::Found(m))).1 == Action::<Outcome>::List(
                Listing::RoomPosts { room: room_id, offset: page_offset(page)->Ok_0 },
            )
        }),
{
}

/// The joined rooms listed are the requesting user's, and they are the
/// answer.
pub proof fn law_joined_rooms_are_the_users(user: User, rooms: Vec<Room>)
    ensures
        ({
            let (s, a) = (GetJoinedRooms::AwaitUser).next(Event::Authenticated(Some(user)));
            &&& a == Action::<Outcome>::List(Listing::JoinedRooms { user: user.username })
            &&& s.next(Event::Rooms(Some(rooms))).1 == reply(Reply::Rooms(rooms))
        }),
{
}

/// The members listed are those of the requested room: a page of them, or
/// those whose name holds the term; each is answered with its username and
/// public name, in order.
pub proof fn law_members_are_the_rooms(
    room_id: String,
    query: MemberQuery,
    user: User,
    users: Vec<User>,
    r1: (RoomMembers, Action<Outcome>),
    r2: (RoomMembers, Action<Outcome>),
)
    requires
        (RoomMembers::AwaitUser { room_id, query }).steps_to(Event::Authenticated(Some(user)), r1),
        r1.0.steps_to(Event::Users(Some(users)), r2),
        query matches MemberQuery::Page(page) ==> page_offset(page) is Ok,
        query matches MemberQuery::Search(term) ==> term is Some,
    ensures
        query matches MemberQuery::Page(page) ==> r1.1 == Action::<Outcome>::List(
            Listing::RoomMembers { room: room_id, offset: page_offset(page)->Ok_0 },
        ),
        query matches MemberQuery::Search(term) ==> r1.1 == Action::<Outcome>::List(
            Listing::RoomMemberSearch { room: room_id, term: term->0 },
        ),
        (r2.1 matches Action::Finish(Ok(Reply::Members(v))) && v@.len() == users@.len() && (forall|i: int|
            0 <= i < v@.len() ==> #[trigger] v@[i].username == users@[i].username && v@[i].public_name
                == users@[i].public_name)),
{
    if let Action::Finish(Ok(Reply::Members(v))) = r2.1 {
        assert forall|i: int| 0 <= i < v@.len() implies #[trigger] v@[i].username == users@[i].username
            && v@[i].public_name == users@[i].public_name by {
            assert(v@[i] == joined_user_of(users@[i]));
        }
    }
}

/// For the owner of a room, the banned users listed are those of that room:
/// a page of them, or those whose name holds the term.
pub proof fn law_banned_users_are_the_rooms(user: User, room_id: String, room: Room, op: AdminOp, r: (RoomAdmin, Action<Outcome>))
    requires
        room.owner@ == user.username@,
        (RoomAdmin::AwaitRoom { user, room_id, op }).steps_to(Event::RoomRow(Lookup::Found(room)), r),
        op matches AdminOp::ListBanned(page) ==> page_offset(page) is Ok,
        op matches AdminOp::SearchBanned(term) ==> term is Some,
    ensures
        op matches AdminOp::ListBanned(page) ==> r.1 == Action::<Outcome>::List(
            Listing::BannedUsers { room: room_id, offset: page_offset(page)->Ok_0 },
        ),
        op matches AdminOp::SearchBanned(term) ==> r.1 == Action::<Outcome>::List(
            Listing::BannedUserSearch { room: room_id, term: term->0 },
        ),
{
}

/// The owner cannot kick or ban themself: naming one's own username is
/// refused before the room is read; kicking anyone else reads the room.
pub proof fn law_kick_or_ban_of_oneself_is_refused(room_id: String, t: String, ban: bool, user: User)
    ensures
        ({
            let op = if ban { AdminOp::Ban(t) } else { AdminOp::Kick(t) };
            let r = (RoomAdmin::AwaitUser { room_id, op });
            &&& t@ == user.username@ ==> r.steps_to(
                Event::Authenticated(Some(user)),
                (RoomAdmin::Done, fail(ApiError::InvalidQuery)),
            )
            &&& t@ != user.username@ ==> r.steps_to(
                Event::Authenticated(Some(user)),
                (RoomAdmin::AwaitRoom { user, room_id, op }, Action::<Outcome>::Fetch(Key::Room(room_id))),
            )
        }),
{
}

/// A room is opened only within its size limits: a name of at most 24 bytes,
/// a description of at most 150 and a color of at most 6; anything larger is
/// `ContentTooLarge`.
pub proof fn law_room_size_limits(data: RoomCreationData, now: i64, room_id: String, user: User)
    ensures
        ({
            let a = (CreateRoom::AwaitUser { data, now, room_id }).next(Event::Authenticated(Some(user))).1;
            let fits = byte_len(data.name@) <= 24 && byte_len(data.description@) <= 150 && byte_len(data.color@) <= 6;
            &&& !fits ==> a == fail(ApiError::ContentTooLarge)
            &&& fits ==> a == Action::<Outcome>::Begin
        }),
{
}

/// A room's new name must hold 1 to 24 bytes, its new description 1 to 150,
/// and its new color exactly 6; other values are refused before anything is
/// read.
pub proof fn law_room_edit_limits(room_id: String, edit: RoomEdit)
    ensures
        match edit {
            RoomEdit::Name(n) => (edit_error(edit) is None <==> 1 <= byte_len(n@) <= 24),
            RoomEdit::Description(d) => (edit_error(edit) is None <==> 1 <= byte_len(d@) <= 150),
            RoomEdit::Color(c) => (edit_error(edit) is None <==> byte_len(c@) == 6),
        },
{
}

/// A room within its limits is created in one transaction: the room is
/// inserted with the requested name, description, color and privacy, the
/// creation time and the requesting user as owner; the owner is made its
/// first member from that time; and the new room's id is the answer.
pub proof fn law_room_creation_writes(data: RoomCreationData, now: i64, room_id: String, user: User)
    requires
        byte_len(data.name@) <= 24,
        byte_len(data.description@) <= 150,
        byte_len(data.color@) <= 6,
    ensures
        ({
            let (s1, a1) = (CreateRoom::AwaitUser { data, now, room_id }).next(Event::Authenticated(Some(user)));
            let (s2, a2) = s1.next(Event::Written(true));
            let (s3, a3) = s2.next(Event::Written(true));
            let (s4, a4) = s3.next(Event::Written(true));
            &&& a1 == Action::<Outcome>::Begin
            &&& a2 == Action::<Outcome>::Write(
                Change::InsertRoom(Room {
                    id: room_id,
                    name: data.name,
                    description: data.description,
                    color: data.color,
                    date_created: now,
                    is_private: data.is_private,
                    owner: user.username,
                }),
            )
            &&& a3 == Action::<Outcome>::Write(
                Change::InsertMembership(Membership { user: user.username, room: room_id, date_joined: now }),
            )
            &&& a4 == Action::<Outcome>::Commit
            &&& s4.next(Event::Written(true)).1 == reply(Reply::RoomId(room_id))
        }),
{
}

} // verus!
