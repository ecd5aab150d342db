use go_getta::api::file_upload::{file_upload, update_profile_picture, update_room_banner, FileType};
use go_getta::api::post::{create_post, PostCreationData};
use go_getta::api::search::{fetch_search_posts, fetch_search_users};
use go_getta::api::user_data::{get_user_data, update_biography, update_public_name, UpdateBiographyData, UpdatePublicNameData};
use go_getta::api::{who_am_i, RatingInteraction, SearchResultResponse};
use go_getta::create_account::{create_account, AccountCreationCredentials};
use go_getta::error::ApiError;
use go_getta::flow::{page_in_range, read_page, Action, Change, Event, Key, Listing, Lookup, Part, Reply};
use go_getta::login::{login, logout, LoginCredentials};
use go_getta::models::{AccountKey, Following, Room, Session, User};
use go_getta::pages::PageStore;
use go_getta::render::render;
use go_getta::session::validate_session_from_headers;

fn user(name: &str) -> User {
    User::new(name.to_string(), "hash".to_string(), format!("{} public", name), "bio".to_string())
}

fn room(id: &str, owner: &str) -> Room {
    Room {
        id: id.to_string(),
        name: "room".to_string(),
        description: "a room".to_string(),
        color: "ff0000".to_string(),
        date_created: 0,
        is_private: false,
        owner: owner.to_string(),
    }
}

fn is_error<T>(a: &Action<Result<T, ApiError>>, e: ApiError) -> bool {
    matches!(a, Action::Finish(Err(x)) if *x == e)
}

#[test]
fn who_am_i_answers_the_session_user() {
    let (m, a) = who_am_i();
    assert!(matches!(a, Action::Authenticate));
    assert!(m.accepts(&Event::Authenticated(Some(user("ann")))));
    let (_, a) = m.step(Event::Authenticated(Some(user("ann"))));
    match a {
        Action::Finish(Ok(Reply::WhoAmI(w))) => {
            assert_eq!(w.username, "ann");
            assert_eq!(w.public_name, "ann public");
            assert_eq!(w.biography, "bio");
        },
        _ => panic!("expected a profile"),
    }
}

#[test]
fn who_am_i_without_session_is_refused() {
    let (m, _) = who_am_i();
    let (_, a) = m.step(Event::Authenticated(None));
    assert!(is_error(&a, ApiError::InvalidSession));
}

#[test]
fn live_session_lets_its_user_in() {
    let (m, a) = validate_session_from_headers(Some("a=1; session_id=s1".to_string()), Some(1000));
    assert!(matches!(&a, Action::Fetch(Key::Session(id)) if id == "s1"));
    let s = Session { id: "s1".to_string(), username: "ann".to_string(), timestamp: Some(400) };
    let (m, a) = m.step(Event::SessionRow(Lookup::Found(s)));
    assert!(matches!(&a, Action::Fetch(Key::User(n)) if n == "ann"));
    let (_, a) = m.step(Event::UserRow(Lookup::Found(user("ann"))));
    assert!(matches!(&a, Action::Finish(Some(u)) if u.username == "ann"));
}

#[test]
fn session_older_than_ten_minutes_is_refused() {
    let (m, _) = validate_session_from_headers(Some("session_id=s1".to_string()), Some(1000));
    let s = Session { id: "s1".to_string(), username: "ann".to_string(), timestamp: Some(399) };
    let (_, a) = m.step(Event::SessionRow(Lookup::Found(s)));
    assert!(matches!(a, Action::Finish(None)));
}

#[test]
fn session_without_timestamp_never_expires() {
    let (m, _) = validate_session_from_headers(Some("session_id=s1".to_string()), Some(i64::MAX));
    let s = Session { id: "s1".to_string(), username: "ann".to_string(), timestamp: None };
    let (_, a) = m.step(Event::SessionRow(Lookup::Found(s)));
    assert!(matches!(a, Action::Fetch(Key::User(_))));
}

#[test]
fn request_without_session_cookie_is_nobody() {
    let (_, a) = validate_session_from_headers(Some("theme=dark".to_string()), Some(5));
    assert!(matches!(a, Action::Finish(None)));
    let (_, a) = validate_session_from_headers(None, Some(5));
    assert!(matches!(a, Action::Finish(None)));
}

fn new_account(name: &str, password: &str) -> User {
    let creds = AccountCreationCredentials {
        key: "k1".to_string(),
        username: name.to_string(),
        password: password.to_string(),
    };
    let (m, a) = create_account(creds, 77);
    assert!(matches!(&a, Action::Fetch(Key::AccountKey(k)) if k == "k1"));
    let (m, a) = m.step(Event::AccountKeyRow(Lookup::Found(AccountKey::new("k1".to_string()))));
    assert!(matches!(&a, Action::Fetch(Key::User(n)) if n == name));
    let (m, a) = m.step(Event::UserRow(Lookup::Missing));
    let u = match a {
        Action::Write(Change::InsertUser(u)) => u,
        _ => panic!("expected the new user"),
    };
    assert_eq!(u.username, name);
    assert_eq!(u.public_name, name);
    assert_eq!(u.biography, "");
    assert_ne!(u.password, password);
    assert!(u.password.starts_with("$2b$04$"));
    assert_eq!(u.password.len(), 60);
    let (m, a) = m.step(Event::Written(true));
    assert!(matches!(&a, Action::Write(Change::MarkKeyUsed(k)) if k == "k1"));
    let (m, a) = m.step(Event::Written(true));
    let sid = match a {
        Action::Write(Change::InsertSession(s)) => {
            assert_eq!(s.username, name);
            assert_eq!(s.timestamp, Some(77));
            assert_eq!(s.id.len(), 36);
            s.id
        },
        _ => panic!("expected a session"),
    };
    let (_, a) = m.step(Event::Written(true));
    assert!(matches!(&a, Action::Finish(Ok(Reply::SessionId(id))) if *id == sid));
    u
}

#[test]
fn new_account_logs_in_with_its_password() {
    let u = new_account("carol", "s3cret");
    let (m, a) = login(LoginCredentials { username: "carol".to_string(), password: "s3cret".to_string(), expires: false }, 9);
    assert!(matches!(&a, Action::Fetch(Key::User(n)) if n == "carol"));
    let (m, a) = m.step(Event::UserRow(Lookup::Found(u)));
    let sid = match a {
        Action::Write(Change::InsertSession(s)) => {
            assert_eq!(s.username, "carol");
            assert_eq!(s.timestamp, None);
            s.id
        },
        _ => panic!("expected a session"),
    };
    let (_, a) = m.step(Event::Written(true));
    assert!(matches!(&a, Action::Finish(Ok(Reply::SessionId(id))) if *id == sid));
}

#[test]
fn wrong_password_is_refused() {
    let u = new_account("dave", "right");
    let (m, _) = login(LoginCredentials { username: "dave".to_string(), password: "wrong".to_string(), expires: true }, 9);
    let (_, a) = m.step(Event::UserRow(Lookup::Found(u)));
    assert!(is_error(&a, ApiError::InvalidPassword));
}

#[test]
fn malformed_hash_is_an_internal_error() {
    let (m, _) = login(LoginCredentials { username: "eve".to_string(), password: "x".to_string(), expires: true }, 9);
    let (_, a) = m.step(Event::UserRow(Lookup::Found(user("eve"))));
    assert!(is_error(&a, ApiError::InternalServer));
}

#[test]
fn used_key_is_refused() {
    let creds = AccountCreationCredentials { key: "k".to_string(), username: "fay".to_string(), password: "p".to_string() };
    let (m, _) = create_account(creds, 1);
    let (_, a) = m.step(Event::AccountKeyRow(Lookup::Found(AccountKey { key: "k".to_string(), used: true })));
    assert!(is_error(&a, ApiError::InvalidKey));
}

#[test]
fn unknown_key_is_refused() {
    let creds = AccountCreationCredentials { key: "k".to_string(), username: "fay".to_string(), password: "p".to_string() };
    let (m, _) = create_account(creds, 1);
    let (_, a) = m.step(Event::AccountKeyRow(Lookup::Missing));
    assert!(is_error(&a, ApiError::InvalidKey));
}

#[test]
fn taken_username_is_refused() {
    let creds = AccountCreationCredentials { key: "k".to_string(), username: "gus".to_string(), password: "p".to_string() };
    let (m, _) = create_account(creds, 1);
    let (m, _) = m.step(Event::AccountKeyRow(Lookup::Found(AccountKey::new("k".to_string()))));
    let (_, a) = m.step(Event::UserRow(Lookup::Found(user("gus"))));
    assert!(is_error(&a, ApiError::UserAlreadyExists));
}

#[test]
fn username_with_space_is_refused() {
    let creds = AccountCreationCredentials { key: "k".to_string(), username: "a b".to_string(), password: "p".to_string() };
    let (_, a) = create_account(creds, 1);
    assert!(is_error(&a, ApiError::InvalidUsername));
}

#[test]
fn logout_deletes_the_session() {
    let (_, a) = logout(Some("session_id=abc".to_string()));
    assert!(matches!(&a, Action::Write(Change::DeleteSession(id)) if id == "abc"));
    let (_, a) = logout(Some("other=abc".to_string()));
    assert!(is_error(&a, ApiError::InvalidSession));
}

#[test]
fn rating_deltas() {
    let all = [RatingInteraction::Unrated, RatingInteraction::Upvote, RatingInteraction::Downvote];
    let value = |r: RatingInteraction| match r {
        RatingInteraction::Unrated => 0,
        RatingInteraction::Upvote => 1,
        RatingInteraction::Downvote => -1,
    };
    for a in all {
        assert_eq!(a.get_delta(&a), 0);
        for b in all {
            let d = a.get_delta(&b);
            assert_eq!(d, value(b) - value(a));
            assert!((-2..=2).contains(&d));
            for c in all {
                assert_eq!(a.get_delta(&b) + b.get_delta(&c), a.get_delta(&c));
            }
        }
    }
    assert_eq!(RatingInteraction::Downvote.get_delta(&RatingInteraction::Upvote), 2);
    assert_eq!(RatingInteraction::Upvote.get_delta(&RatingInteraction::Unrated), -1);
}

#[test]
fn page_offsets() {
    assert_eq!(read_page(&Some("0".to_string())), Ok(0));
    assert_eq!(read_page(&Some("3".to_string())), Ok(60));
    assert_eq!(read_page(&Some("-1".to_string())), Ok(-20));
    assert_eq!(read_page(&Some("x".to_string())), Err(ApiError::InvalidQuery));
    assert_eq!(read_page(&None), Err(ApiError::InvalidQuery));
    assert!(page_in_range(&Some("461168601842738790".to_string())));
    assert!(!page_in_range(&Some("461168601842738791".to_string())));
}

#[test]
fn profile_of_another_user() {
    let (m, a) = get_user_data("bo%62".to_string());
    assert!(matches!(a, Action::Authenticate));
    let (m, a) = m.step(Event::Authenticated(Some(user("ann"))));
    assert!(matches!(&a, Action::Fetch(Key::User(n)) if n == "bob"));
    let mut bob = user("bob");
    bob.followers = 5;
    bob.followed = 2;
    let (m, a) = m.step(Event::UserRow(Lookup::Found(bob)));
    assert!(matches!(&a, Action::Fetch(Key::Following { follower, followed }) if follower == "ann" && followed == "bob"));
    let f = Following { follower: "ann".to_string(), followed: "bob".to_string() };
    let (_, a) = m.step(Event::FollowingRow(Lookup::Found(f)));
    match a {
        Action::Finish(Ok(Reply::UserData(d))) => {
            assert!(d.is_followed);
            assert_eq!(d.followers, 5);
            assert_eq!(d.followed, 2);
            assert_eq!(d.public_name, "bob public");
        },
        _ => panic!("expected a profile"),
    }
}

#[test]
fn profile_of_missing_user() {
    let (m, _) = get_user_data("nobody".to_string());
    let (m, _) = m.step(Event::Authenticated(Some(user("ann"))));
    let (_, a) = m.step(Event::UserRow(Lookup::Failed));
    assert!(is_error(&a, ApiError::UserDoesNotExist));
}

#[test]
fn public_name_length_is_checked() {
    for (name, ok) in [("", false), ("x", true), (&"n".repeat(32)[..], true), (&"n".repeat(33)[..], false), ("ééééééééééééééééé", false)] {
        let (m, _) = update_public_name(UpdatePublicNameData { new_public_name: name.to_string() });
        let (_, a) = m.step(Event::Authenticated(Some(user("ann"))));
        if ok {
            assert!(matches!(&a, Action::Write(Change::SaveUser(u)) if u.public_name == name && u.username == "ann" && u.biography == "bio"));
        } else {
            assert!(is_error(&a, ApiError::InvalidPublicName));
        }
    }
}

#[test]
fn biography_length_is_checked() {
    let (m, _) = update_biography(UpdateBiographyData { new_biography: "b".repeat(2048) });
    let (m, a) = m.step(Event::Authenticated(Some(user("ann"))));
    assert!(matches!(&a, Action::Write(Change::SaveUser(u)) if u.biography.len() == 2048 && u.public_name == "ann public"));
    let (_, a) = m.step(Event::Written(true));
    assert!(matches!(a, Action::Finish(Ok(Reply::Empty))));
    let (m, _) = update_biography(UpdateBiographyData { new_biography: "b".repeat(2049) });
    let (_, a) = m.step(Event::Authenticated(Some(user("ann"))));
    assert!(is_error(&a, ApiError::InvalidBiography));
}

#[test]
fn search_needs_page_and_term() {
    let (m, _) = fetch_search_users(Some("0".to_string()), None);
    let (_, a) = m.step(Event::Authenticated(Some(user("ann"))));
    assert!(is_error(&a, ApiError::InvalidQuery));
    let (m, _) = fetch_search_users(None, Some("x".to_string()));
    let (_, a) = m.step(Event::Authenticated(Some(user("ann"))));
    assert!(is_error(&a, ApiError::InvalidQuery));
}

#[test]
fn user_search_lists_matches() {
    let (m, _) = fetch_search_users(Some("1".to_string()), Some("bo".to_string()));
    let (m, a) = m.step(Event::Authenticated(Some(user("ann"))));
    assert!(matches!(&a, Action::List(Listing::SearchUsers { term, offset: 20 }) if term == "bo"));
    let (_, a) = m.step(Event::Users(Some(vec![user("bob"), user("bobby")])));
    match a {
        Action::Finish(Ok(Reply::Search(SearchResultResponse::Users(v)))) => {
            assert_eq!(v.len(), 2);
            assert_eq!(v[0].username, "bob");
            assert_eq!(v[1].public_name, "bobby public");
        },
        _ => panic!("expected users"),
    }
}

#[test]
fn post_search_counts_failed_memberships_as_none() {
    let (m, _) = fetch_search_posts(Some("0".to_string()), Some("cat".to_string()));
    let (m, a) = m.step(Event::Authenticated(Some(user("ann"))));
    assert!(matches!(&a, Action::List(Listing::MembershipRoomIds { user }) if user == "ann"));
    let (_, a) = m.step(Event::Names(None));
    assert!(matches!(&a, Action::List(Listing::SearchPosts { term, rooms, user, offset: 0 }) if term == "cat" && rooms.is_empty() && user == "ann"));
}

#[test]
fn upload_stores_each_file_then_the_appendage() {
    let (m, _) = file_upload();
    let (m, a) = m.step(Event::Authenticated(Some(user("ann"))));
    assert!(matches!(a, Action::NextPart));
    let (m, _) = m.step(Event::Part(Part::Received { content_type: Some("image/png".to_string()), content: Some(vec![1, 2]) }));
    let (m, a) = m.step(Event::Part(Part::Received { content_type: Some("audio/ogg".to_string()), content: Some(vec![3]) }));
    assert!(matches!(a, Action::NextPart));
    let (m, a) = m.step(Event::Part(Part::End));
    let first = match a {
        Action::StoreFile { file_id, content } => {
            assert_eq!(content, vec![1, 2]);
            assert_eq!(file_id.len(), 36);
            file_id
        },
        _ => panic!("expected the first file"),
    };
    assert!(!m.accepts(&Event::Stored(false)));
    assert!(m.accepts(&Event::Stored(true)));
    let (m, a) = m.step(Event::Stored(true));
    let second = match a {
        Action::StoreFile { file_id, content } => {
            assert_eq!(content, vec![3]);
            file_id
        },
        _ => panic!("expected the second file"),
    };
    assert_ne!(first, second);
    let (m, a) = m.step(Event::Stored(true));
    let id = match a {
        Action::StoreAppendage { appendage_id, files } => {
            assert_eq!(files.len(), 2);
            assert_eq!(files[0].file_id, first);
            assert_eq!(files[0].file_type, FileType::Image);
            assert_eq!(files[1].file_id, second);
            assert_eq!(files[1].file_type, FileType::Audio);
            appendage_id
        },
        _ => panic!("expected the appendage"),
    };
    let (_, a) = m.step(Event::Stored(false));
    assert!(matches!(&a, Action::Finish(Ok(Reply::AppendageId(x))) if *x == id));
}

#[test]
fn upload_of_unknown_kind_is_refused() {
    let (m, _) = file_upload();
    let (m, _) = m.step(Event::Authenticated(Some(user("ann"))));
    let (_, a) = m.step(Event::Part(Part::Received { content_type: Some("text/plain".to_string()), content: Some(vec![1]) }));
    assert!(is_error(&a, ApiError::InvalidFile));
    let (m, _) = file_upload();
    let (m, _) = m.step(Event::Authenticated(Some(user("ann"))));
    let (_, a) = m.step(Event::Part(Part::Received { content_type: None, content: Some(vec![1]) }));
    assert!(is_error(&a, ApiError::InvalidFile));
}

#[test]
fn empty_upload_stores_an_empty_appendage() {
    let (m, _) = file_upload();
    let (m, _) = m.step(Event::Authenticated(Some(user("ann"))));
    let (_, a) = m.step(Event::Part(Part::Failed));
    assert!(matches!(&a, Action::StoreAppendage { appendage_id, files } if files.is_empty() && appendage_id.len() == 36));
}

#[test]
fn profile_picture_needs_a_part() {
    let (m, _) = update_profile_picture();
    let (m, _) = m.step(Event::Authenticated(Some(user("ann"))));
    let (_, a) = m.step(Event::Part(Part::End));
    assert!(is_error(&a, ApiError::EmptyContent));
    let (m, _) = update_profile_picture();
    let (m, _) = m.step(Event::Authenticated(Some(user("ann"))));
    let (m, a) = m.step(Event::Part(Part::Received { content_type: None, content: Some(vec![9]) }));
    assert!(matches!(&a, Action::StoreProfilePicture { username, content } if username == "ann" && *content == vec![9]));
    let (_, a) = m.step(Event::Stored(false));
    assert!(is_error(&a, ApiError::InternalServer));
}

#[test]
fn room_banner_needs_ownership() {
    let (m, _) = update_room_banner("r1".to_string());
    let (m, a) = m.step(Event::Authenticated(Some(user("ann"))));
    assert!(matches!(&a, Action::Fetch(Key::Room(id)) if id == "r1"));
    let (_, a) = m.step(Event::RoomRow(Lookup::Found(room("r1", "bob"))));
    assert!(is_error(&a, ApiError::InsufficientPermissions));
    let (m, _) = update_room_banner("r1".to_string());
    let (m, _) = m.step(Event::Authenticated(Some(user("bob"))));
    let (m, a) = m.step(Event::RoomRow(Lookup::Found(room("r1", "bob"))));
    assert!(matches!(a, Action::NextPart));
    let (_, a) = m.step(Event::Part(Part::Received { content_type: None, content: Some(vec![1]) }));
    assert!(matches!(&a, Action::StoreRoomBanner { room_id, .. } if room_id == "r1"));
}

#[test]
fn entry_page_depends_on_the_session() {
    let store = PageStore::new("login".to_string(), "main".to_string());
    let (m, _) = render(&store);
    let (_, a) = m.step(Event::Authenticated(Some(user("ann"))));
    assert!(matches!(&a, Action::Finish(p) if p == "main"));
    let (m, _) = render(&store);
    let (_, a) = m.step(Event::Authenticated(None));
    assert!(matches!(&a, Action::Finish(p) if p == "login"));
}

#[test]
fn post_bodies_are_checked() {
    let data = |body: String| PostCreationData { body, appendage_id: None, room: None, parent: None, child: None };
    let (m, _) = create_post(data("   ".to_string()), 5);
    let (_, a) = m.step(Event::Authenticated(Some(user("ann"))));
    assert!(is_error(&a, ApiError::EmptyContent));
    let (m, _) = create_post(data("x".repeat(301)), 5);
    let (_, a) = m.step(Event::Authenticated(Some(user("ann"))));
    assert!(is_error(&a, ApiError::ContentTooLarge));
    let (m, _) = create_post(data("hello".to_string()), 5);
    let (_, a) = m.step(Event::Authenticated(Some(user("ann"))));
    assert!(matches!(&a, Action::Write(Change::InsertPost(p)) if p.body == "hello" && p.creator == "ann" && p.timestamp == 5 && p.id.len() == 36));
}

#[test]
fn stored_ratings_read_as_interactions() {
    use_rating(None, RatingInteraction::Unrated);
    use_rating(Some(true), RatingInteraction::Upvote);
    use_rating(Some(false), RatingInteraction::Downvote);
}

fn use_rating(up: Option<bool>, expected: RatingInteraction) {
    let row = up.map(|is_upvote| go_getta::models::Rating { user: "ann".to_string(), post: "p".to_string(), is_upvote });
    let r: RatingInteraction = row.into();
    assert_eq!(r, expected);
}

#[test]
fn fresh_ids_are_hyphenated_v4_uuids() {
    let a = Session::open_for_user(user("ann"), true, 5);
    let b = Session::open_for_user(user("ann"), false, 5);
    assert_ne!(a.id, b.id);
    assert_eq!(a.timestamp, Some(5));
    assert_eq!(b.timestamp, None);
    for s in [a.id, b.id] {
        let chars: Vec<char> = s.chars().collect();
        assert_eq!(chars.len(), 36);
        for (i, c) in chars.iter().enumerate() {
            if i == 8 || i == 13 || i == 18 || i == 23 {
                assert_eq!(*c, '-');
            } else {
                assert!(c.is_ascii_digit() || ('a'..='f').contains(c));
            }
        }
        assert_eq!(chars[14], '4');
        assert!("89ab".contains(chars[19]));
    }
}
