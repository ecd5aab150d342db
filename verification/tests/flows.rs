use go_getta::api::bookmark::{bookmark_post, unbookmark_post};
use go_getta::api::follow::{follow, follow_notification_rollout, unfollow};
use go_getta::api::notification::PushNotification;
use go_getta::api::post::{create_post, delete_post, get_post, PostCreationData};
use go_getta::api::rating::{set_rating_state, SetRatingData};
use go_getta::api::room::{
    add_user_to_room, ban_user_from_room, create_room, fetch_banned_users, kick_user_from_room, leave_room, room_posts_query,
    update_room_name, AddUserToRoomData, RoomCreationData, UpdateRoomNameData,
};
use go_getta::api::thread::{get_thread, MAX_PARENT_POST_COUNT};
use go_getta::api::{PostInteraction, PostQueryResponse, RatingInteraction};
use go_getta::error::ApiError;
use go_getta::flow::{Action, Change, Event, Key, Listing, Lookup, NotifyRequest, Reply, Task};
use go_getta::models::{Ban, Bookmark, Following, Membership, NotificationTimeout, Post, Rating, Room, User};

fn user(name: &str) -> User {
    User::new(name.to_string(), "hash".to_string(), format!("{} public", name), "bio".to_string())
}

fn post(id: &str, creator: &str) -> Post {
    Post {
        id: id.to_string(),
        creator: creator.to_string(),
        body: "body".to_string(),
        timestamp: 10,
        rating: 0,
        appendage_id: None,
        room: None,
        parent: None,
        comments: 0,
        shares: 0,
        reposts: 0,
        bookmarks: 0,
        child: None,
    }
}

fn room(id: &str, owner: &str, is_private: bool) -> Room {
    Room {
        id: id.to_string(),
        name: "room".to_string(),
        description: "a room".to_string(),
        color: "00ff00".to_string(),
        date_created: 0,
        is_private,
        owner: owner.to_string(),
    }
}

fn shown(p: Post) -> PostQueryResponse {
    PostQueryResponse { post: p, interaction: PostInteraction { rating: RatingInteraction::Unrated }, child: None }
}

fn is_error<T>(a: &Action<Result<T, ApiError>>, e: ApiError) -> bool {
    matches!(a, Action::Finish(Err(x)) if *x == e)
}

#[test]
fn comment_raises_and_deletion_lowers_the_parent_count() {
    let mut parent = post("p", "bob");
    parent.comments = 4;
    let data = PostCreationData { body: "hi".to_string(), appendage_id: None, room: None, parent: Some("p".to_string()), child: None };
    let (m, _) = create_post(data, 50);
    let (m, a) = m.step(Event::Authenticated(Some(user("ann"))));
    assert!(matches!(&a, Action::Fetch(Key::Post(id)) if id == "p"));
    let (m, a) = m.step(Event::PostRow(Lookup::Found(parent.duplicate())));
    let comment = match a {
        Action::Write(Change::InsertPost(c)) => c,
        _ => panic!("expected the comment"),
    };
    assert_eq!(comment.parent, Some("p".to_string()));
    assert_eq!(comment.rating, 0);
    assert_eq!(comment.comments, 0);
    let (m, a) = m.step(Event::Written(true));
    let raised = match a {
        Action::Write(Change::SavePost(p)) => p,
        _ => panic!("expected the parent"),
    };
    assert_eq!(raised.comments, 5);
    let (_, a) = m.step(Event::Written(true));
    assert!(matches!(&a, Action::Finish(Ok(Reply::PostId(id))) if *id == comment.id));

    let (m, _) = delete_post(comment.id.clone());
    let (m, _) = m.step(Event::Authenticated(Some(user("ann"))));
    let (m, a) = m.step(Event::PostRow(Lookup::Found(comment.duplicate())));
    assert!(matches!(&a, Action::Fetch(Key::Post(id)) if id == "p"));
    let (m, a) = m.step(Event::PostRow(Lookup::Found(raised)));
    assert!(matches!(&a, Action::Write(Change::DeletePost(id)) if *id == comment.id));
    let (m, a) = m.step(Event::Written(true));
    assert!(matches!(&a, Action::Write(Change::SavePost(p)) if p.comments == 4 && p.id == "p"));
    let (m, a) = m.step(Event::Written(true));
    assert!(matches!(&a, Action::Spawn(Task::DeleteRatingsOf(id)) if *id == comment.id));
    let (_, a) = m.step(Event::Spawned);
    assert!(matches!(a, Action::Finish(Ok(Reply::Empty))));
}

#[test]
fn only_the_creator_deletes_a_post() {
    let (m, _) = delete_post("p".to_string());
    let (m, _) = m.step(Event::Authenticated(Some(user("eve"))));
    let (_, a) = m.step(Event::PostRow(Lookup::Found(post("p", "bob"))));
    assert!(is_error(&a, ApiError::InsufficientPermissions));
}

#[test]
fn private_post_needs_membership() {
    let mut p = post("p", "bob");
    p.room = Some("r".to_string());
    let (m, _) = get_post("p".to_string());
    let (m, a) = m.step(Event::Authenticated(Some(user("eve"))));
    assert!(matches!(&a, Action::Fetch(Key::Post(id)) if id == "p"));
    let (m, a) = m.step(Event::PostRow(Lookup::Found(p.duplicate())));
    assert!(matches!(&a, Action::Fetch(Key::Room(id)) if id == "r"));
    let (m, a) = m.step(Event::RoomRow(Lookup::Found(room("r", "bob", true))));
    assert!(matches!(&a, Action::Fetch(Key::Membership { user, room }) if user == "eve" && room == "r"));
    let (_, a) = m.step(Event::MembershipRow(Lookup::Missing));
    assert!(is_error(&a, ApiError::RoomBoundaryViolation));

    let (m, _) = get_post("p".to_string());
    let (m, _) = m.step(Event::Authenticated(Some(user("eve"))));
    let (m, _) = m.step(Event::PostRow(Lookup::Found(p.duplicate())));
    let (_, a) = m.step(Event::RoomRow(Lookup::Found(room("r", "bob", false))));
    assert!(matches!(&a, Action::DescribeOne { post, .. } if post.id == "p"));

    let (m, _) = get_post("p".to_string());
    let (m, _) = m.step(Event::Authenticated(Some(user("eve"))));
    let (m, _) = m.step(Event::PostRow(Lookup::Found(p)));
    let (_, a) = m.step(Event::RoomRow(Lookup::Missing));
    assert!(is_error(&a, ApiError::PostDoesNotExist));

    let (m, _) = get_post("q".to_string());
    let (m, _) = m.step(Event::Authenticated(Some(user("eve"))));
    let (_, a) = m.step(Event::PostRow(Lookup::Missing));
    assert!(is_error(&a, ApiError::PostDoesNotExist));
}

#[test]
fn public_space_post_is_shown_to_everyone() {
    let (m, _) = get_post("p".to_string());
    let (m, _) = m.step(Event::Authenticated(Some(user("eve"))));
    let (m, a) = m.step(Event::PostRow(Lookup::Found(post("p", "bob"))));
    assert!(matches!(&a, Action::DescribeOne { post, user } if post.id == "p" && user.username == "eve"));
    let (_, a) = m.step(Event::DescribedOne(shown(post("p", "bob"))));
    assert!(matches!(&a, Action::Finish(Ok(Reply::Post(d))) if d.post.id == "p"));
}

#[test]
fn bookmark_count_round_trip() {
    let mut p = post("p", "bob");
    p.bookmarks = 7;
    let (m, _) = bookmark_post("p".to_string());
    let (m, _) = m.step(Event::Authenticated(Some(user("ann"))));
    let (m, _) = m.step(Event::PostRow(Lookup::Found(p)));
    let (m, a) = m.step(Event::BookmarkRow(Lookup::Missing));
    assert!(matches!(a, Action::Begin));
    let (m, a) = m.step(Event::Written(true));
    assert!(matches!(&a, Action::Write(Change::InsertBookmark(b)) if b.user == "ann" && b.post == "p"));
    let (m, a) = m.step(Event::Written(true));
    let saved = match a {
        Action::Write(Change::SavePost(p)) => p,
        _ => panic!("expected the post"),
    };
    assert_eq!(saved.bookmarks, 8);
    let (m, a) = m.step(Event::Written(true));
    assert!(matches!(a, Action::Commit));
    let (_, a) = m.step(Event::Written(true));
    assert!(matches!(&a, Action::DescribeOne { post, .. } if post.bookmarks == 8));

    let (m, _) = unbookmark_post("p".to_string());
    let (m, _) = m.step(Event::Authenticated(Some(user("ann"))));
    let (m, _) = m.step(Event::PostRow(Lookup::Found(saved)));
    let b = Bookmark { user: "ann".to_string(), post: "p".to_string() };
    let (m, _) = m.step(Event::BookmarkRow(Lookup::Found(b)));
    let (m, a) = m.step(Event::Written(true));
    assert!(matches!(&a, Action::Write(Change::DeleteBookmark { user, post }) if user == "ann" && post == "p"));
    let (_, a) = m.step(Event::Written(true));
    assert!(matches!(&a, Action::Write(Change::SavePost(p)) if p.bookmarks == 7));
}

#[test]
fn unbookmarking_what_is_not_bookmarked_is_refused() {
    let (m, _) = unbookmark_post("p".to_string());
    let (m, _) = m.step(Event::Authenticated(Some(user("ann"))));
    let (m, _) = m.step(Event::PostRow(Lookup::Found(post("p", "bob"))));
    let (_, a) = m.step(Event::BookmarkRow(Lookup::Missing));
    assert!(is_error(&a, ApiError::InvalidQuery));
}

fn follow_notification(now: i64) -> PushNotification {
    let (m, a) = follow_notification_rollout(user("ann"), "bob".to_string(), now);
    assert!(matches!(&a, Action::Fetch(Key::NotificationTimeout { notification_type, emitter, receiver })
        if notification_type == "Follow" && emitter == "ann" && receiver == "bob"));
    m
}

#[test]
fn notification_cooldown() {
    let last = NotificationTimeout {
        notification_type: "Follow".to_string(),
        emitter: "ann".to_string(),
        receiver: "bob".to_string(),
        timestamp_emitted: 1000,
    };
    let copy = |t: &NotificationTimeout| NotificationTimeout {
        notification_type: t.notification_type.clone(),
        emitter: t.emitter.clone(),
        receiver: t.receiver.clone(),
        timestamp_emitted: t.timestamp_emitted,
    };
    let (_, a) = follow_notification(4599).step(Event::NotificationTimeoutRow(Lookup::Found(copy(&last))));
    assert!(is_error(&a, ApiError::CooldownActive));

    let (m, a) = follow_notification(4600).step(Event::NotificationTimeoutRow(Lookup::Found(copy(&last))));
    assert!(matches!(&a, Action::Write(Change::SaveNotificationTimeout(t)) if t.timestamp_emitted == 4600));
    let (m, a) = m.step(Event::Written(true));
    assert!(matches!(&a, Action::Write(Change::ReplaceNotificationTimeout(t)) if t.timestamp_emitted == 4600 && t.emitter == "ann"));
    let (m, a) = m.step(Event::Written(true));
    match &a {
        Action::Write(Change::InsertNotification(n)) => {
            assert_eq!(n.user, "bob");
            assert_eq!(n.message, "ann public is now following you!");
            assert_eq!(n.href, "?view=profile&id=ann");
            assert_eq!(n.timestamp, 4600);
        },
        _ => panic!("expected the notification"),
    }
    let (_, a) = m.step(Event::Written(true));
    assert!(matches!(a, Action::Finish(Ok(()))));
}

#[test]
fn follow_raises_both_counts_once() {
    let mut ann = user("ann");
    ann.followed = 1;
    let mut bob = user("bob");
    bob.followers = 9;
    let (m, _) = follow("bob".to_string());
    let (m, _) = m.step(Event::Authenticated(Some(ann.duplicate())));
    let (m, a) = m.step(Event::UserRow(Lookup::Found(bob.duplicate())));
    assert!(matches!(a, Action::Begin));
    let (m, _) = m.step(Event::Written(true));
    let (m, a) = m.step(Event::FollowingRow(Lookup::Missing));
    assert!(matches!(&a, Action::Write(Change::InsertFollowing(f)) if f.follower == "ann" && f.followed == "bob"));
    let (m, a) = m.step(Event::Written(true));
    assert!(matches!(&a, Action::Write(Change::SaveUser(u)) if u.username == "bob" && u.followers == 10));
    let (m, a) = m.step(Event::Written(true));
    assert!(matches!(&a, Action::Write(Change::SaveUser(u)) if u.username == "ann" && u.followed == 2));
    let (m, a) = m.step(Event::Written(true));
    assert!(matches!(&a, Action::Spawn(Task::Notify(NotifyRequest::Follow { emitter, receiver })) if emitter.username == "ann" && receiver == "bob"));
    let (m, a) = m.step(Event::Spawned);
    assert!(matches!(a, Action::Commit));
    let (_, a) = m.step(Event::Written(true));
    assert!(matches!(a, Action::Finish(Ok(Reply::Empty))));

    let (m, _) = follow("bob".to_string());
    let (m, _) = m.step(Event::Authenticated(Some(ann)));
    let (m, _) = m.step(Event::UserRow(Lookup::Found(bob)));
    let (m, _) = m.step(Event::Written(true));
    let f = Following { follower: "ann".to_string(), followed: "bob".to_string() };
    let (m, a) = m.step(Event::FollowingRow(Lookup::Found(f)));
    assert!(matches!(a, Action::Rollback));
    let (_, a) = m.step(Event::Written(true));
    assert!(is_error(&a, ApiError::InternalServer));
}

#[test]
fn unfollow_lowers_both_counts() {
    let mut ann = user("ann");
    ann.followed = 2;
    let mut bob = user("bob");
    bob.followers = 10;
    let (m, _) = unfollow("bob".to_string());
    let (m, _) = m.step(Event::Authenticated(Some(ann)));
    let (m, _) = m.step(Event::UserRow(Lookup::Found(bob)));
    let (m, _) = m.step(Event::Written(true));
    let f = Following { follower: "ann".to_string(), followed: "bob".to_string() };
    let (m, a) = m.step(Event::FollowingRow(Lookup::Found(f)));
    assert!(matches!(&a, Action::Write(Change::DeleteFollowing { follower, followed }) if follower == "ann" && followed == "bob"));
    let (m, a) = m.step(Event::Written(true));
    assert!(matches!(&a, Action::Write(Change::SaveUser(u)) if u.username == "bob" && u.followers == 9));
    let (_, a) = m.step(Event::Written(true));
    assert!(matches!(&a, Action::Write(Change::SaveUser(u)) if u.username == "ann" && u.followed == 1));
}

fn rate(p: Post, old: Option<bool>, new: RatingInteraction, rater: &str) -> (Post, Action<Result<Reply, ApiError>>) {
    let (m, _) = set_rating_state(SetRatingData { post_id: p.id.clone(), new_rating: new });
    let (m, _) = m.step(Event::Authenticated(Some(user(rater))));
    let (m, a) = m.step(Event::Written(true));
    assert!(matches!(&a, Action::Fetch(Key::Post(id)) if *id == p.id));
    let (m, a) = m.step(Event::PostRow(Lookup::Found(p)));
    assert!(matches!(&a, Action::Fetch(Key::Rating { user, .. }) if user == rater));
    let found = match old {
        Some(up) => Lookup::Found(Rating { user: rater.to_string(), post: "p".to_string(), is_upvote: up }),
        None => Lookup::Missing,
    };
    let (m, a) = m.step(Event::RatingRow(found));
    match (&a, new) {
        (Action::Write(Change::DeleteRating { user, post }), RatingInteraction::Unrated) => {
            assert_eq!(user, rater);
            assert_eq!(post, "p");
        },
        (Action::Write(Change::ReplaceRating(r)), RatingInteraction::Upvote) => assert!(r.is_upvote),
        (Action::Write(Change::ReplaceRating(r)), RatingInteraction::Downvote) => assert!(!r.is_upvote),
        _ => panic!("expected the rating change"),
    }
    let (m, a) = m.step(Event::Written(true));
    let saved = match a {
        Action::Write(Change::SavePost(p)) => p,
        _ => panic!("expected the post"),
    };
    let (m, _) = m.step(Event::Written(true));
    let (m, _) = m.step(Event::Written(true));
    let (_, a) = m.step(Event::DescribedOne(shown(saved.duplicate())));
    (saved, a)
}

#[test]
fn score_moves_by_the_rating_delta_and_back() {
    let mut p = post("p", "bob");
    p.rating = 3;
    let (up, a) = rate(p, None, RatingInteraction::Upvote, "ann");
    assert_eq!(up.rating, 4);
    assert!(matches!(&a, Action::Spawn(Task::Notify(NotifyRequest::Rating { receiver, rating: RatingInteraction::Upvote, .. })) if receiver == "bob"));
    let (down, _) = rate(up, Some(true), RatingInteraction::Downvote, "ann");
    assert_eq!(down.rating, 2);
    let (back, _) = rate(down, Some(false), RatingInteraction::Unrated, "ann");
    assert_eq!(back.rating, 3);
}

#[test]
fn rating_ones_own_post_notifies_nobody() {
    let (_, a) = rate(post("p", "bob"), None, RatingInteraction::Upvote, "bob");
    assert!(matches!(&a, Action::Finish(Ok(Reply::Post(d))) if d.post.rating == 1));
}

#[test]
fn creator_owns_and_joins_a_new_room() {
    let data = RoomCreationData { name: "cats".to_string(), description: "about cats".to_string(), color: "ffaa00".to_string(), is_private: true };
    let (m, _) = create_room(data, 33);
    let (m, a) = m.step(Event::Authenticated(Some(user("ann"))));
    assert!(matches!(a, Action::Begin));
    let (m, a) = m.step(Event::Written(true));
    let room_id = match a {
        Action::Write(Change::InsertRoom(r)) => {
            assert_eq!(r.owner, "ann");
            assert_eq!(r.name, "cats");
            assert!(r.is_private);
            assert_eq!(r.date_created, 33);
            r.id
        },
        _ => panic!("expected the room"),
    };
    let (m, a) = m.step(Event::Written(true));
    assert!(matches!(&a, Action::Write(Change::InsertMembership(ms)) if ms.user == "ann" && ms.room == room_id && ms.date_joined == 33));
    let (m, a) = m.step(Event::Written(true));
    assert!(matches!(a, Action::Commit));
    let (_, a) = m.step(Event::Written(true));
    assert!(matches!(&a, Action::Finish(Ok(Reply::RoomId(id))) if *id == room_id));
}

#[test]
fn oversized_room_is_refused() {
    let data = RoomCreationData { name: "n".repeat(25), description: String::new(), color: String::new(), is_private: false };
    let (m, _) = create_room(data, 1);
    let (_, a) = m.step(Event::Authenticated(Some(user("ann"))));
    assert!(is_error(&a, ApiError::ContentTooLarge));
}

#[test]
fn room_posts_need_membership() {
    let (m, _) = room_posts_query("r".to_string(), Some("0".to_string()));
    let (m, _) = m.step(Event::Authenticated(Some(user("eve"))));
    let (_, a) = m.step(Event::MembershipRow(Lookup::Missing));
    assert!(is_error(&a, ApiError::RoomBoundaryViolation));

    let (m, _) = room_posts_query("r".to_string(), Some("2".to_string()));
    let (m, _) = m.step(Event::Authenticated(Some(user("ann"))));
    let ms = Membership { user: "ann".to_string(), room: "r".to_string(), date_joined: 0 };
    let (_, a) = m.step(Event::MembershipRow(Lookup::Found(ms)));
    assert!(matches!(&a, Action::List(Listing::RoomPosts { room, offset: 40 }) if room == "r"));
}

#[test]
fn only_the_owner_edits_a_room() {
    let (m, _) = update_room_name(go_getta::api::room::UpdateRoomNameData { room_id: "r".to_string(), new_name: "dogs".to_string() });
    let (m, _) = m.step(Event::Authenticated(Some(user("eve"))));
    let (_, a) = m.step(Event::RoomRow(Lookup::Found(room("r", "bob", false))));
    assert!(is_error(&a, ApiError::InsufficientPermissions));

    let (m, _) = update_room_name(UpdateRoomNameData { room_id: "r".to_string(), new_name: "dogs".to_string() });
    let (m, _) = m.step(Event::Authenticated(Some(user("bob"))));
    let (_, a) = m.step(Event::RoomRow(Lookup::Found(room("r", "bob", false))));
    assert!(matches!(&a, Action::Write(Change::SaveRoom(r)) if r.name == "dogs" && r.description == "a room"));
}

#[test]
fn owner_cannot_leave_a_room() {
    let (m, _) = leave_room("r".to_string());
    let (m, _) = m.step(Event::Authenticated(Some(user("bob"))));
    let (_, a) = m.step(Event::RoomRow(Lookup::Found(room("r", "bob", false))));
    assert!(is_error(&a, ApiError::InvalidQuery));

    let (m, _) = leave_room("r".to_string());
    let (m, _) = m.step(Event::Authenticated(Some(user("ann"))));
    let (_, a) = m.step(Event::RoomRow(Lookup::Found(room("r", "bob", false))));
    assert!(matches!(&a, Action::Write(Change::DeleteMembership { user, room }) if user == "ann" && room == "r"));
}

#[test]
fn only_the_owner_administers_a_room() {
    let (m, _) = kick_user_from_room("r".to_string(), "ann".to_string());
    let (m, _) = m.step(Event::Authenticated(Some(user("eve"))));
    let (_, a) = m.step(Event::RoomRow(Lookup::Found(room("r", "bob", false))));
    assert!(is_error(&a, ApiError::InsufficientPermissions));
}

#[test]
fn owner_cannot_expel_themself() {
    let (m, _) = ban_user_from_room("r".to_string(), "bob".to_string());
    let (_, a) = m.step(Event::Authenticated(Some(user("bob"))));
    assert!(is_error(&a, ApiError::InvalidQuery));
}

#[test]
fn ban_removes_the_membership_then_records_the_ban() {
    let (m, _) = ban_user_from_room("r".to_string(), "ann".to_string());
    let (m, _) = m.step(Event::Authenticated(Some(user("bob"))));
    let (m, a) = m.step(Event::RoomRow(Lookup::Found(room("r", "bob", false))));
    assert!(matches!(&a, Action::Fetch(Key::User(n)) if n == "ann"));
    let (m, a) = m.step(Event::UserRow(Lookup::Found(user("ann"))));
    assert!(matches!(&a, Action::Write(Change::DeleteMembership { user, room }) if user == "ann" && room == "r"));
    let (m, a) = m.step(Event::Written(true));
    assert!(matches!(&a, Action::Write(Change::ReplaceBan(b)) if b.user == "ann" && b.room == "r"));
    let (_, a) = m.step(Event::Written(true));
    assert!(matches!(a, Action::Finish(Ok(Reply::Empty))));
}

#[test]
fn banned_user_is_not_added() {
    let (m, _) = add_user_to_room("r".to_string(), AddUserToRoomData { username: "ann".to_string() }, 5);
    let (m, _) = m.step(Event::Authenticated(Some(user("bob"))));
    let (m, a) = m.step(Event::RoomRow(Lookup::Found(room("r", "bob", true))));
    assert!(matches!(&a, Action::Fetch(Key::Ban { user, room }) if user == "ann" && room == "r"));
    let ban = Ban { user: "ann".to_string(), room: "r".to_string() };
    let (_, a) = m.step(Event::BanRow(Lookup::Found(ban)));
    assert!(is_error(&a, ApiError::UserIsBanned));

    let (m, _) = add_user_to_room("r".to_string(), AddUserToRoomData { username: "ann".to_string() }, 5);
    let (m, _) = m.step(Event::Authenticated(Some(user("bob"))));
    let (m, _) = m.step(Event::RoomRow(Lookup::Found(room("r", "bob", true))));
    let (m, _) = m.step(Event::BanRow(Lookup::Missing));
    let (_, a) = m.step(Event::UserRow(Lookup::Found(user("ann"))));
    assert!(matches!(&a, Action::Write(Change::ReplaceMembership(ms)) if ms.user == "ann" && ms.room == "r" && ms.date_joined == 5));
}

#[test]
fn thread_shows_at_most_ten_parents() {
    let (mut m, _) = get_thread("p0".to_string());
    let (next, _) = m.step(Event::Authenticated(Some(user("ann"))));
    m = next;
    let chain = |i: usize| {
        let mut p = post(&format!("p{}", i), "bob");
        p.parent = Some(format!("p{}", i + 1));
        p
    };
    let (next, a) = m.step(Event::PostRow(Lookup::Found(chain(0))));
    assert!(matches!(&a, Action::DescribeOne { post, .. } if post.id == "p0"));
    m = next;
    let mut i = 0;
    loop {
        let (next, a) = m.step(Event::DescribedOne(shown(chain(i))));
        match a {
            Action::Fetch(Key::Post(id)) => {
                assert_eq!(id, format!("p{}", i + 1));
                let (after, _) = next.step(Event::PostRow(Lookup::Found(chain(i + 1))));
                m = after;
                i += 1;
            },
            Action::Finish(Ok(Reply::Posts(v))) => {
                assert_eq!(v.len(), MAX_PARENT_POST_COUNT + 1);
                assert_eq!(v[0].post.id, format!("p{}", MAX_PARENT_POST_COUNT));
                assert_eq!(v[MAX_PARENT_POST_COUNT].post.id, "p0");
                break;
            },
            _ => panic!("unexpected step"),
        }
    }
    assert_eq!(i, MAX_PARENT_POST_COUNT);
}

#[test]
fn thread_stops_at_an_unreadable_parent() {
    let (m, _) = get_thread("c".to_string());
    let (m, _) = m.step(Event::Authenticated(Some(user("ann"))));
    let mut c = post("c", "bob");
    c.parent = Some("gone".to_string());
    let (m, _) = m.step(Event::PostRow(Lookup::Found(c.duplicate())));
    let (m, a) = m.step(Event::DescribedOne(shown(c)));
    assert!(matches!(&a, Action::Fetch(Key::Post(id)) if id == "gone"));
    let (_, a) = m.step(Event::PostRow(Lookup::Missing));
    assert!(matches!(&a, Action::Finish(Ok(Reply::Posts(v))) if v.len() == 1 && v[0].post.id == "c"));
}

#[test]
fn repost_raises_and_deletion_lowers_the_reposted_count() {
    let mut reposted = post("o", "bob");
    reposted.reposts = 2;
    let data = PostCreationData { body: "look".to_string(), appendage_id: None, room: None, parent: None, child: Some("o".to_string()) };
    let (m, _) = create_post(data, 60);
    let (m, _) = m.step(Event::Authenticated(Some(user("ann"))));
    let (m, a) = m.step(Event::PostRow(Lookup::Found(reposted.duplicate())));
    let repost = match a {
        Action::Write(Change::InsertPost(p)) => p,
        _ => panic!("expected the repost"),
    };
    assert_eq!(repost.child, Some("o".to_string()));
    let (m, a) = m.step(Event::Written(true));
    let raised = match a {
        Action::Write(Change::SavePost(p)) => p,
        _ => panic!("expected the reposted post"),
    };
    assert_eq!(raised.reposts, 3);
    let (_, a) = m.step(Event::Written(true));
    assert!(matches!(&a, Action::Finish(Ok(Reply::PostId(id))) if *id == repost.id));

    let (m, _) = delete_post(repost.id.clone());
    let (m, _) = m.step(Event::Authenticated(Some(user("ann"))));
    let (m, a) = m.step(Event::PostRow(Lookup::Found(repost.duplicate())));
    assert!(matches!(&a, Action::Fetch(Key::Post(id)) if id == "o"));
    let (m, _) = m.step(Event::PostRow(Lookup::Found(raised)));
    let (_, a) = m.step(Event::Written(true));
    assert!(matches!(&a, Action::Write(Change::SavePost(p)) if p.reposts == 2 && p.id == "o"));
}

#[test]
fn repost_out_of_a_private_room_is_refused() {
    let mut reposted = post("o", "bob");
    reposted.room = Some("r".to_string());
    let data = PostCreationData { body: "look".to_string(), appendage_id: None, room: None, parent: None, child: Some("o".to_string()) };
    let (m, _) = create_post(data, 60);
    let (m, _) = m.step(Event::Authenticated(Some(user("ann"))));
    let (m, a) = m.step(Event::PostRow(Lookup::Found(reposted)));
    assert!(matches!(&a, Action::Fetch(Key::Room(id)) if id == "r"));
    let (_, a) = m.step(Event::RoomRow(Lookup::Found(room("r", "bob", true))));
    assert!(is_error(&a, ApiError::RoomBoundaryViolation));
}

#[test]
fn banned_list_of_a_foreign_room_is_refused_whatever_the_page() {
    let (m, _) = fetch_banned_users(Some("9223372036854775807".to_string()), "r".to_string());
    let (m, _) = m.step(Event::Authenticated(Some(user("eve"))));
    let e = Event::RoomRow(Lookup::Found(room("r", "bob", false)));
    assert!(m.accepts(&e));
    let (_, a) = m.step(e);
    assert!(is_error(&a, ApiError::InsufficientPermissions));

    let (m, _) = fetch_banned_users(Some("9223372036854775807".to_string()), "r".to_string());
    let (m, _) = m.step(Event::Authenticated(Some(user("bob"))));
    assert!(!m.accepts(&Event::RoomRow(Lookup::Found(room("r", "bob", false)))));

    let (m, _) = fetch_banned_users(Some("1".to_string()), "r".to_string());
    let (m, _) = m.step(Event::Authenticated(Some(user("bob"))));
    let (_, a) = m.step(Event::RoomRow(Lookup::Found(room("r", "bob", false))));
    assert!(matches!(&a, Action::List(Listing::BannedUsers { room, offset: 20 }) if room == "r"));
}
