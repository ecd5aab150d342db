//! Uploads of files: appendages of posts, profile pictures and room banners.
use vstd::prelude::*;

use crate::api::room::{owned_room, room_owned_by};
use crate::bindings::{fresh_id, is_hyphenated_v4};
use crate::error::ApiError;
use crate::flow::{
    authenticated, authenticated_user, fail, reply, Action, Event, Key, Lookup, Outcome, Part,
    Reply,
};
use crate::models::{Room, User};
use crate::text::{before_char, first_segment_is};

verus! {

/// The kind of media that an uploaded file holds.
#[derive(Debug, Clone, Copy, PartialEq, Eq, Structural)]
pub enum FileType {
    Image,
    Video,
    Audio,
}

/// The kind of media that a MIME type names by its top-level type: the part
/// before the first `/`.
pub open spec fn file_type_of(content_type: Seq<char>) -> Option<FileType> {
    let top = before_char(content_type, '/');
    if top == "image"@ {
        Some(FileType::Image)
    } else if top == "video"@ {
        Some(FileType::Video)
    } else if top == "audio"@ {
        Some(FileType::Audio)
    } else {
        None
    }
}

impl FileType {
    /// The kind of media of a MIME type such as `image/png`; `None` for any
    /// top-level type other than image, video and audio.
    pub fn try_from(content_type: &str) -> (r: Option<Self>)
        ensures
            r == file_type_of(content_type@),
    {
        if first_segment_is(content_type, '/', "image") {
            Some(FileType::Image)
        } else if first_segment_is(content_type, '/', "video") {
            Some(FileType::Video)
        } else if first_segment_is(content_type, '/', "audio") {
            Some(FileType::Audio)
        } else {
            None
        }
    }
}

/// A file received in an upload, not stored yet.
pub struct PendingFile {
    pub content: Vec<u8>,
    pub file_type: FileType,
}

/// A stored file: the id it is stored under and its kind.
pub struct FileID {
    pub file_id: String,
    pub file_type: FileType,
}

/// The file that a part of an upload carries: `InvalidFile` when the part
/// declares no type, a type other than image, video or audio, or its body
/// could not be read.
pub open spec fn received_file(content_type: Option<String>, content: Option<Vec<u8>>) -> Result<PendingFile, ApiError> {
    match content_type {
        None => Err(ApiError::InvalidFile),
        Some(ct) => match file_type_of(ct@) {
            None => Err(ApiError::InvalidFile),
            Some(t) => match content {
                None => Err(ApiError::InvalidFile),
                Some(c) => Ok(PendingFile { content: c, file_type: t }),
            },
        },
    }
}

fn receive_file(content_type: Option<String>, content: Option<Vec<u8>>) -> (r: Result<PendingFile, ApiError>)
    ensures
        r == received_file(content_type, content),
{
    match content_type {
        None => Err(ApiError::InvalidFile),
        Some(ct) => match FileType::try_from(ct.as_str()) {
            None => Err(ApiError::InvalidFile),
            Some(t) => match content {
                None => Err(ApiError::InvalidFile),
                Some(c) => Ok(PendingFile { content: c, file_type: t }),
            },
        },
    }
}

/// Uploads the files of a post's appendage. Every part must be a file of a
/// known kind; once the parts end, each file is stored under a fresh id, in
/// the order received, and the appendage, under a fresh id of its own, lists
/// them. A file that cannot be stored stops the server.
pub enum FileUpload {
    AwaitUser,
    AwaitPart { files: Vec<PendingFile> },
    AwaitFileStored { appendage_id: String, current: FileID, pending: Vec<PendingFile>, saved: Vec<FileID> },
    AwaitAppendageStored { appendage_id: String },
    Done,
}

/// The step after the last part, or after storing a file: store the next
/// pending file under a fresh id, or the appendage once none is left.
pub open spec fn stores_next(
    appendage_id: String,
    pending: Seq<PendingFile>,
    saved: Seq<FileID>,
    r: (FileUpload, Action<Outcome>),
) -> bool {
    if pending.len() == 0 {
        &&& r.0 == (FileUpload::AwaitAppendageStored { appendage_id })
        &&& r.1 matches Action::StoreAppendage { appendage_id: a, files: fs }
        &&& a == appendage_id && fs@ == saved
    } else {
        &&& r.0 matches FileUpload::AwaitFileStored { appendage_id: a, current: c, pending: p, saved: s }
        &&& a == appendage_id && s@ == saved && p@ == pending.drop_first()
        &&& is_hyphenated_v4(c.file_id@) && c.file_type == pending[0].file_type
        &&& r.1 == Action::<Outcome>::StoreFile { file_id: c.file_id, content: pending[0].content }
    }
}

impl FileUpload {
    /// A file that was asked to be stored was stored.
    pub open spec fn admits(&self, e: &Event) -> bool {
        match self {
            FileUpload::AwaitFileStored { .. } => *e == Event::Stored(true),
            _ => true,
        }
    }

    pub fn accepts(&self, e: &Event) -> (r: bool)
        ensures
            r == self.admits(e),
    {
        match self {
            FileUpload::AwaitFileStored { .. } => match e {
                Event::Stored(true) => true,
                _ => false,
            },
            _ => true,
        }
    }

    pub open spec fn steps_to(self, e: Event, r: (FileUpload, Action<Outcome>)) -> bool {
        match self {
            FileUpload::AwaitUser => match authenticated(e) {
                Err(x) => r == (FileUpload::Done, fail(x)),
                Ok(_) => r.0 matches FileUpload::AwaitPart { files } && files@.len() == 0 && r.1
                    == Action::<Outcome>::NextPart,
            },
            FileUpload::AwaitPart { files } => match e {
                Event::Part(Part::Received { content_type, content }) => match received_file(content_type, content) {
                    Err(x) => r == (FileUpload::Done, fail(x)),
                    Ok(f) => r.0 matches FileUpload::AwaitPart { files: fs } && fs@ == files@.push(f) && r.1
                        == Action::<Outcome>::NextPart,
                },
                Event::Part(_) => exists|id: String| is_hyphenated_v4(id@) && stores_next(id, files@, Seq::empty(), r),
                _ => r == (FileUpload::Done, fail(ApiError::InternalServer)),
            },
            FileUpload::AwaitFileStored { appendage_id, current, pending, saved } => stores_next(
                appendage_id,
                pending@,
                saved@.push(current),
                r,
            ),
            FileUpload::AwaitAppendageStored { appendage_id } => r == (
                FileUpload::Done,
                reply(Reply::AppendageId(appendage_id)),
            ),
            FileUpload::Done => r == (FileUpload::Done, fail(ApiError::InternalServer)),
        }
    }

    fn store_next(appendage_id: String, pending: Vec<PendingFile>, saved: Vec<FileID>) -> (r: (FileUpload, Action<Outcome>))
        ensures
            stores_next(appendage_id, pending@, saved@, r),
    {
        let mut pending = pending;
        if pending.len() == 0 {
            (FileUpload::AwaitAppendageStored { appendage_id: appendage_id.clone() }, Action::StoreAppendage { appendage_id, files: saved })
        } else {
            let next = pending.remove(0);
            let current = FileID { file_id: fresh_id(), file_type: next.file_type };
            let file_id = current.file_id.clone();
            (FileUpload::AwaitFileStored { appendage_id, current, pending, saved }, Action::StoreFile { file_id, content: next.content })
        }
    }

    pub fn step(self, e: Event) -> (r: (FileUpload, Action<Outcome>))
        requires
            self.admits(&e),
        ensures
            self.steps_to(e, r),
    {
        match self {
            FileUpload::AwaitUser => match authenticated_user(e) {
                Err(x) => (FileUpload::Done, Action::Finish(Err(x))),
                Ok(_) => (FileUpload::AwaitPart { files: Vec::new() }, Action::NextPart),
            },
            FileUpload::AwaitPart { mut files } => match e {
                Event::Part(Part::Received { content_type, content }) => match receive_file(content_type, content) {
                    Err(x) => (FileUpload::Done, Action::Finish(Err(x))),
                    Ok(f) => {
                        files.push(f);
                        (FileUpload::AwaitPart { files }, Action::NextPart)
                    },
                },
                Event::Part(_) => {
                    let appendage_id = fresh_id();
                    let r = Self::store_next(appendage_id, files, Vec::new());
                    proof {
                        assert(stores_next(appendage_id, files@, Seq::empty(), r));
                    }
                    r
                },
                _ => (FileUpload::Done, Action::Finish(Err(ApiError::InternalServer))),
            },
            FileUpload::AwaitFileStored { appendage_id, current, pending, mut saved } => {
                saved.push(current);
                Self::store_next(appendage_id, pending, saved)
            },
            FileUpload::AwaitAppendageStored { appendage_id } => (FileUpload::Done, Action::Finish(Ok(Reply::AppendageId(appendage_id)))),
            FileUpload::Done => (FileUpload::Done, Action::Finish(Err(ApiError::InternalServer))),
        }
    }
}

/// Starts an upload of an appendage.
pub fn file_upload() -> (r: (FileUpload, Action<Outcome>))
    ensures
        r == (FileUpload::AwaitUser, Action::<Outcome>::Authenticate),
{
    (FileUpload::AwaitUser, Action::Authenticate)
}

/// Where a replaced image goes.
pub enum ImageSlot {
    ProfilePicture(String),
    RoomBanner(String),
}

/// The action that stores `content` in `slot`.
pub open spec fn store_image(slot: ImageSlot, content: Vec<u8>) -> Action<Outcome> {
    match slot {
        ImageSlot::ProfilePicture(username) => Action::StoreProfilePicture { username, content },
        ImageSlot::RoomBanner(room_id) => Action::StoreRoomBanner { room_id, content },
    }
}

/// Replaces the requesting user's profile picture, or the banner of a room
/// that the requesting user owns, with the first part of the upload.
pub enum ReplaceImage {
    AwaitUser { banner_of: Option<String> },
    AwaitRoom { user: User },
    AwaitPart { slot: ImageSlot },
    AwaitStored,
    Done,
}

impl ReplaceImage {
    pub open spec fn admits(&self, e: &Event) -> bool {
        true
    }

    pub fn accepts(&self, e: &Event) -> (r: bool)
        ensures
            r == self.admits(e),
    {
        true
    }

    pub open spec fn next(self, e: Event) -> (ReplaceImage, Action<Outcome>) {
        match self {
            ReplaceImage::AwaitUser { banner_of } => match authenticated(e) {
                Err(x) => (ReplaceImage::Done, fail(x)),
                Ok(user) => match banner_of {
                    None => (ReplaceImage::AwaitPart { slot: ImageSlot::ProfilePicture(user.username) }, Action::NextPart),
                    Some(room_id) => (ReplaceImage::AwaitRoom { user }, Action::Fetch(Key::Room(room_id))),
                },
            },
            ReplaceImage::AwaitRoom { user } => match owned_room(e, user) {
                Err(x) => (ReplaceImage::Done, fail(x)),
                Ok(room) => (ReplaceImage::AwaitPart { slot: ImageSlot::RoomBanner(room.id) }, Action::NextPart),
            },
            ReplaceImage::AwaitPart { slot } => match e {
                Event::Part(Part::End) => (ReplaceImage::Done, fail(ApiError::EmptyContent)),
                Event::Part(Part::Failed) => (ReplaceImage::Done, fail(ApiError::InternalServer)),
                Event::Part(Part::Received { content: None, .. }) => (ReplaceImage::Done, fail(ApiError::InvalidFile)),
                Event::Part(Part::Received { content: Some(c), .. }) => (ReplaceImage::AwaitStored, store_image(slot, c)),
                _ => (ReplaceImage::Done, fail(ApiError::InternalServer)),
            },
            ReplaceImage::AwaitStored => match e {
                Event::Stored(true) => (ReplaceImage::Done, reply(Reply::Empty)),
                _ => (ReplaceImage::Done, fail(ApiError::InternalServer)),
            },
            ReplaceImage::Done => (ReplaceImage::Done, fail(ApiError::InternalServer)),
        }
    }

    pub fn step(self, e: Event) -> (r: (ReplaceImage, Action<Outcome>))
        requires
            self.admits(&e),
        ensures
            r == self.next(e),
    {
        match self {
            ReplaceImage::AwaitUser { banner_of } => match authenticated_user(e) {
                Err(x) => (ReplaceImage::Done, Action::Finish(Err(x))),
                Ok(user) => match banner_of {
                    None => (ReplaceImage::AwaitPart { slot: ImageSlot::ProfilePicture(user.get_username()) }, Action::NextPart),
                    Some(room_id) => (ReplaceImage::AwaitRoom { user }, Action::Fetch(Key::Room(room_id))),
                },
            },
            ReplaceImage::AwaitRoom { user } => match room_owned_by(e, &user) {
                Err(x) => (ReplaceImage::Done, Action::Finish(Err(x))),
                Ok(room) => (ReplaceImage::AwaitPart { slot: ImageSlot::RoomBanner(room.get_id()) }, Action::NextPart),
            },
            ReplaceImage::AwaitPart { slot } => match e {
                Event::Part(Part::End) => (ReplaceImage::Done, Action::Finish(Err(ApiError::EmptyContent))),
                Event::Part(Part::Failed) => (ReplaceImage::Done, Action::Finish(Err(ApiError::InternalServer))),
                Event::Part(Part::Received { content: None, .. }) => (ReplaceImage::Done, Action::Finish(Err(ApiError::InvalidFile))),
                Event::Part(Part::Received { content: Some(content), .. }) => {
                    let action = match slot {
                        ImageSlot::ProfilePicture(username) => Action::StoreProfilePicture { username, content },
                        ImageSlot::RoomBanner(room_id) => Action::StoreRoomBanner { room_id, content },
                    };
                    (ReplaceImage::AwaitStored, action)
                },
                _ => (ReplaceImage::Done, Action::Finish(Err(ApiError::InternalServer))),
            },
            ReplaceImage::AwaitStored => match e {
                Event::Stored(true) => (ReplaceImage::Done, Action::Finish(Ok(Reply::Empty))),
                _ => (ReplaceImage::Done, Action::Finish(Err(ApiError::InternalServer))),
            },
            ReplaceImage::Done => (ReplaceImage::Done, Action::Finish(Err(ApiError::InternalServer))),
        }
    }
}

/// Starts replacing the requesting user's profile picture.
pub fn update_profile_picture() -> (r: (ReplaceImage, Action<Outcome>))
    ensures
        r == (ReplaceImage::AwaitUser { banner_of: None }, Action::<Outcome>::Authenticate),
{
    (ReplaceImage::AwaitUser { banner_of: None }, Action::Authenticate)
}

/// Starts replacing the banner of the room `room_id`.
pub fn update_room_banner(room_id: String) -> (r: (ReplaceImage, Action<Outcome>))
    ensures
        r == (ReplaceImage::AwaitUser { banner_of: Some(room_id) }, Action::<Outcome>::Authenticate),
{
    (ReplaceImage::AwaitUser { banner_of: Some(room_id) }, Action::Authenticate)
}

/// Only the owner of a room replaces its banner: for anyone else the request
/// is refused before any part is read.
pub proof fn law_only_owner_replaces_banner(user: User, room: Room)
    requires
        room.owner@ != user.username@,
    ensures
        (ReplaceImage::AwaitRoom { user }).next(Event::RoomRow(Lookup::Found(room))) == (
            ReplaceImage::Done,
            fail(ApiError::InsufficientPermissions),
        ),
{
}

/// Each part of an upload that declares an image, video or audio type and
/// whose body is read is kept, after the ones before it, with that kind and
/// that body.
pub proof fn law_upload_keeps_each_file(files: Vec<PendingFile>, ct: String, c: Vec<u8>, t: FileType, r: (FileUpload, Action<Outcome>))
    requires
        file_type_of(ct@) == Some(t),
        (FileUpload::AwaitPart { files }).steps_to(
            Event::Part(Part::Received { content_type: Some(ct), content: Some(c) }),
            r,
        ),
    ensures
        r.1 == Action::<Outcome>::NextPart,
        r.0 matches FileUpload::AwaitPart { files: kept } && kept@.len() == files@.len() + 1 && kept@.last().content
            == c && kept@.last().file_type == t && kept@.drop_last() == files@,
{
    if let FileUpload::AwaitPart { files: kept } = r.0 {
        assert(kept@.drop_last() =~= files@);
    }
}

/// Once a file is stored, the next pending file is stored, with its own
/// content, under a fresh id, and the stored file is added after those stored
/// before it; when none is pending, the appendage is stored under its id,
/// listing the stored files in the order they were received.
pub proof fn law_upload_stores_files_in_order(
    appendage_id: String,
    current: FileID,
    pending: Vec<PendingFile>,
    saved: Vec<FileID>,
    r: (FileUpload, Action<Outcome>),
)
    requires
        (FileUpload::AwaitFileStored { appendage_id, current, pending, saved }).steps_to(Event::Stored(true), r),
    ensures
        pending@.len() == 0 ==> (r.1 matches Action::StoreAppendage { appendage_id: a, files } && a == appendage_id
            && files@ == saved@.push(current)),
        pending@.len() > 0 ==> (r.1 matches Action::StoreFile { file_id, content } && content == pending@[0].content
            && is_hyphenated_v4(file_id@) && (r.0 matches FileUpload::AwaitFileStored {
            appendage_id: a,
            current: c,
            pending: p,
            saved: s,
        } && a == appendage_id && c.file_id == file_id && c.file_type == pending@[0].file_type && p@
            == pending@.drop_first() && s@ == saved@.push(current))),
{
}

/// An upload answers with the id of its appendage once the appendage is
/// stored, whether or not storing it succeeded.
pub proof fn law_upload_answers_appendage_id(appendage_id: String, e: Event)
    ensures
        (FileUpload::AwaitAppendageStored { appendage_id }).steps_to(
            e,
            (FileUpload::Done, reply(Reply::AppendageId(appendage_id))),
        ),
{
}

/// A profile picture is stored under the requesting user's name and a room
/// banner under the room's id, with the first part's body; an upload without
/// parts is `EmptyContent`, and a failed store an internal error.
pub proof fn law_image_goes_to_its_slot(banner_of: Option<String>, user: User, room: Room, c: Vec<u8>, ct: Option<String>)
    requires
        room.owner@ == user.username@,
    ensures
        ({
            let (s1, a1) = (ReplaceImage::AwaitUser { banner_of }).next(Event::Authenticated(Some(user)));
            let s = match banner_of {
                None => s1,
                Some(_) => s1.next(Event::RoomRow(Lookup::Found(room))).0,
            };
            let (s2, a2) = s.next(Event::Part(Part::Received { content_type: ct, content: Some(c) }));
            &&& banner_of matches Some(id) ==> a1 == Action::<Outcome>::Fetch(Key::Room(id))
            &&& banner_of is None ==> a2 == (Action::<Outcome>::StoreProfilePicture { username: user.username, content: c })
            &&& banner_of is Some ==> a2 == (Action::<Outcome>::StoreRoomBanner { room_id: room.id, content: c })
            &&& s.next(Event::Part(Part::End)).1 == fail(ApiError::EmptyContent)
            &&& s2.next(Event::Stored(true)).1 == reply(Reply::Empty)
            &&& s2.next(Event::Stored(false)).1 == fail(ApiError::InternalServer)
        }),
{
}

} // verus!
