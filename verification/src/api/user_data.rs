//! Profiles: reading another user's profile and posts, and editing one's own.
use vstd::prelude::*;
use vstd::utf8::*;

use crate::api::GetUserDataResponse;
use crate::bindings::{from_utf8_lossy, url_decode_binary, url_decoded, utf8_lossy};
use crate::error::ApiError;
use crate::flow::{
    authenticated, authenticated_user, fail, found_user, page_fits, page_in_range, page_offset, read_page,
    reply, user_found, Action, Change, Event, Key, Listing, Lookup, Outcome, Reply,
};
use crate::models::{Following, User};
use crate::text::{byte_len, lemma_encoding_without_percent, lemma_url_decoded_without_percent};

verus! {

/// The username that a path segment names: its percent escapes decoded,
/// then read as UTF-8 with invalid sequences replaced.
pub open spec fn decoded_username(raw: Seq<char>) -> Seq<char> {
    utf8_lossy(url_decoded(encode_utf8(raw)))
}

/// Decodes a username taken from a request path. A segment without `%`
/// names itself.
pub fn decode_username(raw: &str) -> (r: String)
    ensures
        r@ == decoded_username(raw@),
        (forall|i: int| 0 <= i < raw@.len() ==> raw@[i] != '%') ==> r@ == raw@,
{
    let bytes = raw.as_bytes();
    let decoded = url_decode_binary(bytes);
    let r = from_utf8_lossy(decoded.as_slice());
    proof {
        if forall|i: int| 0 <= i < raw@.len() ==> raw@[i] != '%' {
            lemma_encoding_without_percent(raw@);
            lemma_url_decoded_without_percent(encode_utf8(raw@));
            encode_utf8_valid_utf8(raw@);
            encode_utf8_decode_utf8(raw@);
        }
    }
    r
}

/// Another user's profile as the requesting user sees it: names, counts, and
/// whether the requesting user follows them. Any failure to read the user
/// counts as `UserDoesNotExist`.
pub enum GetUserData {
    AwaitUser { username: String },
    AwaitTarget { user: User },
    AwaitFollowing { target: User },
    Done,
}

/// The profile of `target`, followed or not.
pub open spec fn profile_of(target: User, is_followed: bool) -> GetUserDataResponse {
    GetUserDataResponse {
        public_name: target.public_name,
        biography: target.biography,
        is_followed,
        followers: target.followers,
        followed: target.followed,
    }
}

impl GetUserData {
    pub open spec fn admits(&self, e: &Event) -> bool {
        true
    }

    pub fn accepts(&self, e: &Event) -> (r: bool)
        ensures
            r == self.admits(e),
    {
        true
    }

    pub open spec fn next(self, e: Event) -> (GetUserData, Action<Outcome>) {
        match self {
            GetUserData::AwaitUser { username } => match authenticated(e) {
                Err(x) => (GetUserData::Done, fail(x)),
                Ok(user) => (GetUserData::AwaitTarget { user }, Action::Fetch(Key::User(username))),
            },
            GetUserData::AwaitTarget { user } => match found_user(e, ApiError::UserDoesNotExist) {
                Err(x) => (GetUserData::Done, fail(x)),
                Ok(target) => (
                    GetUserData::AwaitFollowing { target },
                    Action::Fetch(Key::Following { follower: user.username, followed: target.username }),
                ),
            },
            GetUserData::AwaitFollowing { target } => match e {
                Event::FollowingRow(Lookup::Found(_)) => (GetUserData::Done, reply(Reply::UserData(profile_of(target, true)))),
                Event::FollowingRow(Lookup::Missing) => (GetUserData::Done, reply(Reply::UserData(profile_of(target, false)))),
                _ => (GetUserData::Done, fail(ApiError::InternalServer)),
            },
            GetUserData::Done => (GetUserData::Done, fail(ApiError::InternalServer)),
        }
    }

    pub fn step(self, e: Event) -> (r: (GetUserData, Action<Outcome>))
        requires
            self.admits(&e),
        ensures
            r == self.next(e),
    {
        match self {
            GetUserData::AwaitUser { username } => match authenticated_user(e) {
                Err(x) => (GetUserData::Done, Action::Finish(Err(x))),
                Ok(user) => (GetUserData::AwaitTarget { user }, Action::Fetch(Key::User(username))),
            },
            GetUserData::AwaitTarget { user } => match user_found(e, ApiError::UserDoesNotExist) {
                Err(x) => (GetUserData::Done, Action::Finish(Err(x))),
                Ok(target) => {
                    let key = Key::Following { follower: user.get_username(), followed: target.get_username() };
                    (GetUserData::AwaitFollowing { target }, Action::Fetch(key))
                },
            },
            GetUserData::AwaitFollowing { target } => {
                let is_followed = match e {
                    Event::FollowingRow(Lookup::Found(_)) => true,
                    Event::FollowingRow(Lookup::Missing) => false,
                    _ => {
                        return (GetUserData::Done, Action::Finish(Err(ApiError::InternalServer)));
                    },
                };
                let profile = GetUserDataResponse {
                    public_name: target.public_name,
                    biography: target.biography,
                    is_followed,
                    followers: target.followers,
                    followed: target.followed,
                };
                (GetUserData::Done, Action::Finish(Ok(Reply::UserData(profile))))
            },
            GetUserData::Done => (GetUserData::Done, Action::Finish(Err(ApiError::InternalServer))),
        }
    }
}

/// Starts reading the profile of the user that the path segment `username`
/// names.
pub fn get_user_data(username: String) -> (r: (GetUserData, Action<Outcome>))
    ensures
        r.1 == Action::<Outcome>::Authenticate,
        r.0 matches GetUserData::AwaitUser { username: u } && u@ == decoded_username(username@),
{
    let decoded = decode_username(username.as_str());
    (GetUserData::AwaitUser { username: decoded }, Action::Authenticate)
}

/// One page of another user's posts, newest first: those outside every room
/// and those in the rooms that the requesting user belongs to.
pub enum UsersPosts {
    AwaitUser { username: String, page: Option<String> },
    AwaitRooms { user: User, username: String, offset: i64 },
    AwaitPosts { user: User },
    AwaitDescribed,
    Done,
}

impl UsersPosts {
    /// The page's offset fits in an `i64`.
    pub open spec fn admits(&self, e: &Event) -> bool {
        match self {
            UsersPosts::AwaitUser { page, .. } => e matches Event::Authenticated(Some(_)) ==> page_fits(*page),
            _ => true,
        }
    }

    pub fn accepts(&self, e: &Event) -> (r: bool)
        ensures
            r == self.admits(e),
    {
        match self {
            UsersPosts::AwaitUser { page, .. } => match e {
                Event::Authenticated(Some(_)) => page_in_range(page),
                _ => true,
            },
            _ => true,
        }
    }

    pub open spec fn next(self, e: Event) -> (UsersPosts, Action<Outcome>) {
        match self {
            UsersPosts::AwaitUser { username, page } => match authenticated(e) {
                Err(x) => (UsersPosts::Done, fail(x)),
                Ok(user) => match page_offset(page) {
                    Err(x) => (UsersPosts::Done, fail(x)),
                    Ok(offset) => (
                        UsersPosts::AwaitRooms { user, username, offset },
                        Action::List(Listing::JoinedRoomIds { user: user.username }),
                    ),
                },
            },
            UsersPosts::AwaitRooms { user, username, offset } => match e {
                Event::Names(Some(rooms)) => (
                    UsersPosts::AwaitPosts { user },
                    Action::List(Listing::CreatorPosts { creator: username, rooms, offset }),
                ),
                _ => (UsersPosts::Done, fail(ApiError::InternalServer)),
            },
            UsersPosts::AwaitPosts { user } => match e {
                Event::Posts(Some(posts)) => (UsersPosts::AwaitDescribed, Action::Describe { user, posts }),
                _ => (UsersPosts::Done, fail(ApiError::InternalServer)),
            },
            UsersPosts::AwaitDescribed => match e {
                Event::Described(v) => (UsersPosts::Done, reply(Reply::Posts(v))),
                _ => (UsersPosts::Done, fail(ApiError::InternalServer)),
            },
            UsersPosts::Done => (UsersPosts::Done, fail(ApiError::InternalServer)),
        }
    }

    pub fn step(self, e: Event) -> (r: (UsersPosts, Action<Outcome>))
        requires
            self.admits(&e),
        ensures
            r == self.next(e),
    {
        match self {
            UsersPosts::AwaitUser { username, page } => match authenticated_user(e) {
                Err(x) => (UsersPosts::Done, Action::Finish(Err(x))),
                Ok(user) => match read_page(&page) {
                    Err(x) => (UsersPosts::Done, Action::Finish(Err(x))),
                    Ok(offset) => {
                        let name = user.get_username();
                        (UsersPosts::AwaitRooms { user, username, offset }, Action::List(Listing::JoinedRoomIds { user: name }))
                    },
                },
            },
            UsersPosts::AwaitRooms { user, username, offset } => match e {
                Event::Names(Some(rooms)) => (
                    UsersPosts::AwaitPosts { user },
                    Action::List(Listing::CreatorPosts { creator: username, rooms, offset }),
                ),
                _ => (UsersPosts::Done, Action::Finish(Err(ApiError::InternalServer))),
            },
            UsersPosts::AwaitPosts { user } => match e {
                Event::Posts(Some(posts)) => (UsersPosts::AwaitDescribed, Action::Describe { user, posts }),
                _ => (UsersPosts::Done, Action::Finish(Err(ApiError::InternalServer))),
            },
            UsersPosts::AwaitDescribed => match e {
                Event::Described(v) => (UsersPosts::Done, Action::Finish(Ok(Reply::Posts(v)))),
                _ => (UsersPosts::Done, Action::Finish(Err(ApiError::InternalServer))),
            },
            UsersPosts::Done => (UsersPosts::Done, Action::Finish(Err(ApiError::InternalServer))),
        }
    }
}

/// Starts listing the posts of the user that the path segment `username`
/// names, for the page that `page` names.
pub fn users_posts_query(page: Option<String>, username: String) -> (r: (UsersPosts, Action<Outcome>))
    ensures
        r.1 == Action::<Outcome>::Authenticate,
        r.0 matches UsersPosts::AwaitUser { username: u, page: p } && u@ == decoded_username(username@) && p == page,
{
    let decoded = decode_username(username.as_str());
    (UsersPosts::AwaitUser { username: decoded, page }, Action::Authenticate)
}

/// The longest public name, in bytes.
pub const MAX_PUBLIC_NAME_LEN: usize = 32;

/// The longest biography, in bytes.
pub const MAX_BIOGRAPHY_LEN: usize = 2048;

pub struct UpdatePublicNameData {
    pub new_public_name: String,
}

pub struct UpdateBiographyData {
    pub new_biography: String,
}

/// Which field of the requesting user's profile an edit replaces.
pub enum ProfileEdit {
    PublicName(String),
    Biography(String),
}

/// Why an edit is refused, if it is: a public name must be 1 to 32 bytes
/// long, a biography at most 2048.
pub open spec fn profile_edit_error(edit: ProfileEdit) -> Option<ApiError> {
    match edit {
        ProfileEdit::PublicName(n) => if byte_len(n@) < 1 || byte_len(n@) > MAX_PUBLIC_NAME_LEN {
            Some(ApiError::InvalidPublicName)
        } else {
            None
        },
        ProfileEdit::Biography(b) => if byte_len(b@) > MAX_BIOGRAPHY_LEN {
            Some(ApiError::InvalidBiography)
        } else {
            None
        },
    }
}

/// `user` with the edit applied.
pub open spec fn edited_user(user: User, edit: ProfileEdit) -> User {
    match edit {
        ProfileEdit::PublicName(n) => User { public_name: n, ..user },
        ProfileEdit::Biography(b) => User { biography: b, ..user },
    }
}

/// Replaces the public name or the biography of the requesting user.
pub enum EditProfile {
    AwaitUser { edit: ProfileEdit },
    AwaitSave,
    Done,
}

impl EditProfile {
    pub open spec fn admits(&self, e: &Event) -> bool {
        true
    }

    pub fn accepts(&self, e: &Event) -> (r: bool)
        ensures
            r == self.admits(e),
    {
        true
    }

    pub open spec fn next(self, e: Event) -> (EditProfile, Action<Outcome>) {
        match self {
            EditProfile::AwaitUser { edit } => match authenticated(e) {
                Err(x) => (EditProfile::Done, fail(x)),
                Ok(user) => match profile_edit_error(edit) {
                    Some(x) => (EditProfile::Done, fail(x)),
                    None => (EditProfile::AwaitSave, Action::Write(Change::SaveUser(edited_user(user, edit)))),
                },
            },
            EditProfile::AwaitSave => match e {
                Event::Written(true) => (EditProfile::Done, reply(Reply::Empty)),
                _ => (EditProfile::Done, fail(ApiError::InternalServer)),
            },
            EditProfile::Done => (EditProfile::Done, fail(ApiError::InternalServer)),
        }
    }

    pub fn step(self, e: Event) -> (r: (EditProfile, Action<Outcome>))
        requires
            self.admits(&e),
        ensures
            r == self.next(e),
    {
        match self {
            EditProfile::AwaitUser { edit } => match authenticated_user(e) {
                Err(x) => (EditProfile::Done, Action::Finish(Err(x))),
                Ok(mut user) => match edit {
                    ProfileEdit::PublicName(n) => {
                        let length = n.as_str().len();
                        if length > MAX_PUBLIC_NAME_LEN || length < 1 {
                            return (EditProfile::Done, Action::Finish(Err(ApiError::InvalidPublicName)));
                        }
                        user.set_public_name_unchecked(n);
                        (EditProfile::AwaitSave, Action::Write(Change::SaveUser(user)))
                    },
                    ProfileEdit::Biography(b) => {
                        if b.as_str().len() > MAX_BIOGRAPHY_LEN {
                            return (EditProfile::Done, Action::Finish(Err(ApiError::InvalidBiography)));
                        }
                        user.set_biography_unchecked(b);
                        (EditProfile::AwaitSave, Action::Write(Change::SaveUser(user)))
                    },
                },
            },
            EditProfile::AwaitSave => match e {
                Event::Written(true) => (EditProfile::Done, Action::Finish(Ok(Reply::Empty))),
                _ => (EditProfile::Done, Action::Finish(Err(ApiError::InternalServer))),
            },
            EditProfile::Done => (EditProfile::Done, Action::Finish(Err(ApiError::InternalServer))),
        }
    }
}

/// Starts replacing the requesting user's public name.
pub fn update_public_name(data: UpdatePublicNameData) -> (r: (EditProfile, Action<Outcome>))
    ensures
        r == (EditProfile::AwaitUser { edit: ProfileEdit::PublicName(data.new_public_name) }, Action::<Outcome>::Authenticate),
{
    (EditProfile::AwaitUser { edit: ProfileEdit::PublicName(data.new_public_name) }, Action::Authenticate)
}

/// Starts replacing the requesting user's biography.
pub fn update_biography(data: UpdateBiographyData) -> (r: (EditProfile, Action<Outcome>))
    ensures
        r == (EditProfile::AwaitUser { edit: ProfileEdit::Biography(data.new_biography) }, Action::<Outcome>::Authenticate),
{
    (EditProfile::AwaitUser { edit: ProfileEdit::Biography(data.new_biography) }, Action::Authenticate)
}

/// An accepted edit changes only the field it names: the saved user differs
/// from the requesting user in that field alone.
pub proof fn law_edit_changes_one_field(user: User, edit: ProfileEdit)
    requires
        profile_edit_error(edit) is None,
    ensures
        (EditProfile::AwaitUser { edit }).next(Event::Authenticated(Some(user))).1 == Action::<Outcome>::Write(
            Change::SaveUser(edited_user(user, edit)),
        ),
        edited_user(user, edit).username == user.username,
        edited_user(user, edit).password == user.password,
        edited_user(user, edit).followers == user.followers,
        edited_user(user, edit).followed == user.followed,
{
}

/// A user's posts are those of the user that the path names, not of the
/// requesting user: once the requesting user's rooms are listed, the posts
/// listed are `username`'s, outside every room or in those rooms, from the
/// page's first row.
pub proof fn law_users_posts_are_the_named_users(
    username: String,
    page: Option<String>,
    user: User,
    rooms: Vec<String>,
)
    requires
        page_fits(page),
        page_offset(page) is Ok,
    ensures
        ({
            let (s, a) = (UsersPosts::AwaitUser { username, page }).next(Event::Authenticated(Some(user)));
            let b = s.next(Event::Names(Some(rooms))).1;
            &&& a == Action::<Outcome>::List(Listing::JoinedRoomIds { user: user.username })
            &&& b == Action::<Outcome>::List(
                Listing::CreatorPosts { creator: username, rooms, offset: page_offset(page)->Ok_0 },
            )
        }),
{
}

/// The profile shown is that of the user the path names: that user is read,
/// the following row from the requesting user to them decides
/// `is_followed`, and the names and counts are that user's.
pub proof fn law_profile_is_the_named_users(username: String, user: User, target: User, l: Lookup<Following>)
    ensures
        ({
            let (s1, a1) = (GetUserData::AwaitUser { username }).next(Event::Authenticated(Some(user)));
            let (s2, a2) = s1.next(Event::UserRow(Lookup::Found(target)));
            let a3 = s2.next(Event::FollowingRow(l)).1;
            &&& a1 == Action::<Outcome>::Fetch(Key::User(username))
            &&& a2 == Action::<Outcome>::Fetch(Key::Following { follower: user.username, followed: target.username })
            &&& !(l is Failed) ==> a3 == reply(
                Reply::UserData(GetUserDataResponse {
                    public_name: target.public_name,
                    biography: target.biography,
                    is_followed: l is Found,
                    followers: target.followers,
                    followed: target.followed,
                }),
            )
            &&& l is Failed ==> a3 == fail(ApiError::InternalServer)
            &&& s1.next(Event::UserRow(Lookup::Missing)).1 == fail(ApiError::UserDoesNotExist)
        }),
{
}

/// An accepted public name replaces the requesting user's public name and
/// nothing else; an accepted biography replaces the biography and nothing
/// else. A public name is accepted when it holds 1 to 32 bytes, a biography
/// when it holds at most 2048.
pub proof fn law_profile_edit_saves_the_new_value(user: User, edit: ProfileEdit)
    ensures
        ({
            let a = (EditProfile::AwaitUser { edit }).next(Event::Authenticated(Some(user))).1;
            match edit {
                ProfileEdit::PublicName(n) => if 1 <= byte_len(n@) <= 32 {
                    a == Action::<Outcome>::Write(Change::SaveUser(User { public_name: n, ..user }))
                } else {
                    a == fail(ApiError::InvalidPublicName)
                },
                ProfileEdit::Biography(b) => if byte_len(b@) <= 2048 {
                    a == Action::<Outcome>::Write(Change::SaveUser(User { biography: b, ..user }))
                } else {
                    a == fail(ApiError::InvalidBiography)
                },
            }
        }),
{
}

} // verus!
